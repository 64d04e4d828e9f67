//! What the server's port tells: whether anything listens on it, and whether
//! that is the harness.

use crate::text::{
    contains, contains_text, decode_lossy, law_contains_is_a_middle, lossy_utf8, occurs_at,
};
use vstd::prelude::*;
use vstd::utf8::{decode_utf8, valid_utf8};

verus! {

/// How long an attempt to connect may take, in milliseconds.
pub const CONNECT_TIMEOUT_MILLIS: u64 = 500;

/// How long one read of the reply may take, in milliseconds.
pub const READ_TIMEOUT_MILLIS: u64 = 800;

/// The request that asks the port for its front page.
pub const HARNESS_REQUEST: &'static str =
    "GET / HTTP/1.1\r\nHost: 127.0.0.1\r\nConnection: close\r\n\r\n";

/// How an attempt to connect to the port came out.
#[derive(Clone, Copy, PartialEq, Eq, Structural, Debug)]
pub enum ConnectOutcome {
    Connected,
    Failed,
}

/// Something listens on the port.
pub open spec fn listens(outcome: ConnectOutcome) -> bool {
    outcome is Connected
}

/// A port answers exactly if a connection to it was made.
pub proof fn law_port_answers_if_connected()
    ensures
        listens(ConnectOutcome::Connected),
        !listens(ConnectOutcome::Failed),
{
}

/// Whether something listens on the port.
pub fn port_taken(outcome: ConnectOutcome) -> (taken: bool)
    ensures
        taken <==> outcome is Connected,
        taken == listens(outcome),
{
    match outcome {
        ConnectOutcome::Connected => true,
        ConnectOutcome::Failed => false,
    }
}

/// Whether the server's port answers.
pub fn probe_port(outcome: ConnectOutcome) -> (up: bool)
    ensures
        up <==> outcome is Connected,
        up == listens(outcome),
{
    port_taken(outcome)
}

/// How one read of the reply came out.
pub enum ReadOutcome<'a> {
    /// These bytes arrived; none at the end of the reply.
    Read(&'a [u8]),
    /// The read failed or took too long.
    Failed,
}

/// The part of a reply that has arrived.
pub struct Reply {
    bytes: Vec<u8>,
}

impl View for Reply {
    type V = Seq<u8>;

    closed spec fn view(&self) -> Seq<u8> {
        self.bytes@
    }
}

/// The bytes that a read brought.
pub open spec fn bytes_read(outcome: ReadOutcome<'_>) -> Seq<u8> {
    match outcome {
        ReadOutcome::Read(bytes) => bytes@,
        ReadOutcome::Failed => Seq::empty(),
    }
}

/// The reply `before` after a read that came out as `outcome`, and whether reading
/// goes on.
pub open spec fn absorbed(before: Seq<u8>, outcome: ReadOutcome<'_>) -> (Seq<u8>, bool) {
    (before + bytes_read(outcome), bytes_read(outcome).len() > 0)
}

/// Bytes that arrive are put behind those that have arrived, all of them and
/// nothing else, and reading goes on; where none arrive, or the read fails, the
/// reply stays as it is and reading ends.
pub proof fn law_reply_keeps_all_bytes(before: Seq<u8>, bytes: &[u8])
    ensures
        bytes@.len() > 0 ==> absorbed(before, ReadOutcome::Read(bytes)).1,
        absorbed(before, ReadOutcome::Read(bytes)).0.take(before.len() as int) == before,
        absorbed(before, ReadOutcome::Read(bytes)).0.skip(before.len() as int) == bytes@,
        bytes@.len() == 0 ==> absorbed(before, ReadOutcome::Read(bytes)) == (before, false),
        absorbed(before, ReadOutcome::Failed) == (before, false),
{
    let after = absorbed(before, ReadOutcome::Read(bytes)).0;
    assert(after.take(before.len() as int) =~= before);
    assert(after.skip(before.len() as int) =~= bytes@);
    if bytes@.len() == 0 {
        assert(after =~= before);
    }
    assert(absorbed(before, ReadOutcome::Failed).0 =~= before);
}

impl Reply {
    /// A reply of which nothing has arrived.
    pub fn new() -> (reply: Reply)
        ensures
            reply@ == Seq::<u8>::empty(),
    {
        Reply { bytes: Vec::new() }
    }

    /// Adds what a read brought. Reading goes on until a read brings nothing.
    pub fn absorb(&mut self, outcome: ReadOutcome<'_>) -> (go_on: bool)
        ensures
            final(self)@ == old(self)@ + bytes_read(outcome),
            go_on <==> bytes_read(outcome).len() > 0,
            (final(self)@, go_on) == absorbed(old(self)@, outcome),
    {
        let ghost before = self.bytes@;
        match outcome {
            ReadOutcome::Read(bytes) => {
                self.bytes.extend_from_slice(bytes);
                assert(self.bytes@ =~= before + bytes@);
                bytes.len() > 0
            },
            ReadOutcome::Failed => {
                assert(self.bytes@ =~= before + Seq::<u8>::empty());
                false
            },
        }
    }

    /// The bytes that have arrived.
    pub fn as_slice(&self) -> (bytes: &[u8])
        ensures
            bytes@ == self@,
    {
        self.bytes.as_slice()
    }
}

/// `page` is the front page of the harness.
pub open spec fn harness_page(page: Seq<char>) -> bool {
    contains_text(page, "DeepSeek Harness"@) || contains_text(page, "__DSH_BOOT__"@)
}

/// Whether `page` is the front page of the harness.
pub fn is_harness_page(page: &str) -> (found: bool)
    ensures
        found == harness_page(page@),
{
    contains(page, "DeepSeek Harness") || contains(page, "__DSH_BOOT__")
}

/// The port serves the harness, where `page` is the text of its reply, and none where
/// no connection was made.
pub open spec fn harness_answers(page: Option<Seq<char>>) -> bool {
    match page {
        Some(page) => harness_page(page),
        None => false,
    }
}

/// Whether the port serves the harness, where `reply` is all that arrived of its
/// reply, and none where no connection was made. The reply is decoded lossily, and
/// the marks are looked for in the text that this gives.
pub fn probe_harness(reply: Option<&Reply>) -> (found: bool)
    ensures
        reply is None ==> !found,
        reply matches Some(reply) ==> {
            &&& found == harness_page(lossy_utf8(reply@))
            &&& valid_utf8(reply@) ==> found == harness_page(decode_utf8(reply@))
        },
        found == harness_answers(
            match reply {
                Some(reply) => Some(lossy_utf8(reply@)),
                None => None,
            },
        ),
{
    match reply {
        Some(reply) => {
            let page = decode_lossy(reply.as_slice());
            is_harness_page(page.as_str())
        },
        None => false,
    }
}

/// The harness is recognised by either of its marks, wherever the mark stands in
/// the page.
pub proof fn law_mark_is_found_anywhere(before: Seq<char>, mark: Seq<char>, after: Seq<char>)
    requires
        mark == "DeepSeek Harness"@ || mark == "__DSH_BOOT__"@,
    ensures
        harness_page(before + mark + after),
{
    let page = before + mark + after;
    let at = before.len() as int;
    assert(page.subrange(at, at + mark.len()) =~= mark);
    assert(occurs_at(page, mark, at));
}

/// What holds no mark is not the harness: a page is the harness exactly if one of
/// the two marks stands in it, with any text before and after it. A port serves the
/// harness exactly if it replies with such a page.
pub proof fn law_harness_has_a_mark(page: Seq<char>)
    ensures
        harness_page(page) <==> exists|before: Seq<char>, mark: Seq<char>, after: Seq<char>|
            (mark == "DeepSeek Harness"@ || mark == "__DSH_BOOT__"@) && page == #[trigger] (before
                + mark + after),
        harness_page(page) ==> page.len() >= 12,
        harness_answers(Some(page)) <==> harness_page(page),
        !harness_answers(None),
{
    let title = "DeepSeek Harness"@;
    let boot = "__DSH_BOOT__"@;
    reveal_strlit("DeepSeek Harness");
    reveal_strlit("__DSH_BOOT__");
    law_contains_is_a_middle(page, title);
    law_contains_is_a_middle(page, boot);
    if exists|before: Seq<char>, mark: Seq<char>, after: Seq<char>|
        (mark == title || mark == boot) && page == #[trigger] (before + mark + after) {
        let (before, mark, after): (Seq<char>, Seq<char>, Seq<char>) = choose|
            before: Seq<char>,
            mark: Seq<char>,
            after: Seq<char>,
        | (mark == title || mark == boot) && page == #[trigger] (before + mark + after);
        law_mark_is_found_anywhere(before, mark, after);
    }
    if contains_text(page, title) {
        let (before, after): (Seq<char>, Seq<char>) = choose|
            before: Seq<char>,
            after: Seq<char>,
        | page == #[trigger] (before + title + after);
        assert(page == before + title + after);
    }
    if contains_text(page, boot) {
        let (before, after): (Seq<char>, Seq<char>) = choose|
            before: Seq<char>,
            after: Seq<char>,
        | page == #[trigger] (before + boot + after);
        assert(page == before + boot + after);
    }
}

} // verus!
