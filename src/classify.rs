//! Turns a console line into a player join or leave event.
//!
//! A join line ends with `[JOIN] <name> joined the game`, a leave line with
//! `[LEAVE] <name> left the game`. The name holds no line break. Text may come
//! before the marker; where the marker occurs more than once, the leftmost
//! place at which the whole pattern fits gives the name.
use vstd::prelude::*;
use vstd::std_specs::iter::IteratorSpec;
use vstd::string::StrSliceExecFns;

verus! {

/// Whether a player came or went.
#[derive(Clone, Copy, Debug, PartialEq, Eq, Structural)]
pub enum EventKind {
    Join,
    Leave,
}

/// A player event read from the server's output.
#[derive(Clone, Debug, PartialEq, Eq)]
pub enum DomainEvent {
    Join { actor_name: String },
    Leave { actor_name: String },
}

impl DomainEvent {
    pub open spec fn kind(&self) -> EventKind {
        match self {
            DomainEvent::Join { .. } => EventKind::Join,
            DomainEvent::Leave { .. } => EventKind::Leave,
        }
    }

    pub open spec fn name(&self) -> Seq<char> {
        match self {
            DomainEvent::Join { actor_name } => actor_name@,
            DomainEvent::Leave { actor_name } => actor_name@,
        }
    }

    /// The player's name.
    pub fn actor_name(&self) -> (r: &String)
        ensures
            r@ == self.name(),
    {
        match self {
            DomainEvent::Join { actor_name } => actor_name,
            DomainEvent::Leave { actor_name } => actor_name,
        }
    }

    /// Whether this is a join.
    pub fn is_join(&self) -> (r: bool)
        ensures
            r == (self.kind() == EventKind::Join),
    {
        match self {
            DomainEvent::Join { .. } => true,
            DomainEvent::Leave { .. } => false,
        }
    }
}

/// The abstract value of an optional event: its kind and the name it carries.
pub open spec fn event_view(e: Option<DomainEvent>) -> Option<(EventKind, Seq<char>)> {
    match e {
        Some(ev) => Some((ev.kind(), ev.name())),
        None => None,
    }
}

pub open spec fn join_head() -> Seq<char> {
    "[JOIN] "@
}

pub open spec fn join_tail() -> Seq<char> {
    " joined the game"@
}

pub open spec fn leave_head() -> Seq<char> {
    "[LEAVE] "@
}

pub open spec fn leave_tail() -> Seq<char> {
    " left the game"@
}

/// The pattern `head (.*) tail$` fits `s` starting at `i`: `head` stands at
/// `i`, `s` ends with `tail`, and no line break lies between them.
pub open spec fn matches_at(s: Seq<char>, head: Seq<char>, tail: Seq<char>, i: int) -> bool {
    &&& 0 <= i
    &&& i + head.len() + tail.len() <= s.len()
    &&& s.subrange(i, i + head.len()) == head
    &&& s.subrange(s.len() - tail.len(), s.len() as int) == tail
    &&& forall|k: int| i + head.len() <= k < s.len() - tail.len() ==> s[k] != '\n'
}

/// `i` is the leftmost start at which the pattern fits.
pub open spec fn is_leftmost_match(s: Seq<char>, head: Seq<char>, tail: Seq<char>, i: int) -> bool {
    &&& matches_at(s, head, tail, i)
    &&& forall|j: int| 0 <= j < i ==> !matches_at(s, head, tail, j)
}

pub open spec fn matches(s: Seq<char>, head: Seq<char>, tail: Seq<char>) -> bool {
    exists|i: int| matches_at(s, head, tail, i)
}

/// What the pattern's group captures: the text between head and tail at the
/// leftmost match.
pub open spec fn captured(s: Seq<char>, head: Seq<char>, tail: Seq<char>) -> Seq<char> {
    let i = choose|i: int| is_leftmost_match(s, head, tail, i);
    s.subrange(i + head.len(), s.len() - tail.len())
}

/// The event that a line stands for: the join pattern is tried first, then
/// the leave pattern.
pub open spec fn classified(s: Seq<char>) -> Option<(EventKind, Seq<char>)> {
    if matches(s, join_head(), join_tail()) {
        Some((EventKind::Join, captured(s, join_head(), join_tail())))
    } else if matches(s, leave_head(), leave_tail()) {
        Some((EventKind::Leave, captured(s, leave_head(), leave_tail())))
    } else {
        None
    }
}

/// The characters of `s`, in order.
fn chars_of(s: &str) -> (r: Vec<char>)
    ensures
        r@ == s@,
{
    let mut out: Vec<char> = Vec::new();
    let mut it = s.chars();
    loop
        invariant
            out@ + it.remaining() == s@,
        ensures
            out@ == s@,
        decreases s@.len() - out@.len(),
    {
        match it.next() {
            Some(c) => {
                out.push(c);
            },
            None => {
                assert(out@ + it.remaining() =~= out@);
                break;
            },
        }
    }
    out
}

/// Whether `piece` stands in `text` at position `at`.
fn piece_at(text: &Vec<char>, piece: &Vec<char>, at: usize) -> (r: bool)
    requires
        at + piece@.len() <= text@.len(),
    ensures
        r == (text@.subrange(at as int, at + piece@.len()) == piece@),
{
    let n = text.len();
    let mut k: usize = 0;
    while k < piece.len()
        invariant
            n == text@.len(),
            k <= piece@.len(),
            at + piece@.len() <= text@.len(),
            forall|m: int| 0 <= m < k ==> text@[at + m] == piece@[m],
        decreases piece@.len() - k,
    {
        if text[at + k] != piece[k] {
            assert(text@.subrange(at as int, at + piece@.len())[k as int] != piece@[k as int]);
            return false;
        }
        k = k + 1;
    }
    assert(text@.subrange(at as int, at + piece@.len()) =~= piece@);
    true
}

/// The leftmost start at which `head (.*) tail$` fits `text`, if any.
fn leftmost_match(text: &Vec<char>, head: &Vec<char>, tail: &Vec<char>) -> (r: Option<usize>)
    ensures
        match r {
            Some(i) => is_leftmost_match(text@, head@, tail@, i as int),
            None => !matches(text@, head@, tail@),
        },
{
    let n = text.len();
    let h = head.len();
    let t = tail.len();
    if n < t || n - t < h {
        return None;
    }
    if !piece_at(text, tail, n - t) {
        return None;
    }
    let end = n - t;
    let mut lo = end;
    while lo > 0 && text[lo - 1] != '\n'
        invariant
            lo <= end,
            end == text@.len() - tail@.len(),
            forall|k: int| lo <= k < end ==> text@[k] != '\n',
        decreases lo,
    {
        lo = lo - 1;
    }
    let start = if lo >= h { lo - h } else { 0 };
    let last = end - h;
    if start > last {
        return None;
    }
    let mut i = start;
    loop
        invariant
            start <= i <= last,
            last == end - h,
            h == head@.len(),
            end == text@.len() - tail@.len(),
            h <= end,
            lo <= end,
            start == (if lo >= h { lo - h } else { 0 }),
            lo == 0 || text@[lo - 1] == '\n',
            text@.subrange(end as int, text@.len() as int) == tail@,
            forall|k: int| lo <= k < end ==> text@[k] != '\n',
            forall|j: int| 0 <= j < i ==> !matches_at(text@, head@, tail@, j),
        ensures
            forall|j: int| 0 <= j <= last ==> !matches_at(text@, head@, tail@, j),
        decreases last - i,
    {
        if piece_at(text, head, i) {
            assert(matches_at(text@, head@, tail@, i as int));
            return Some(i);
        }
        if i == last {
            break;
        }
        i = i + 1;
    }
    assert forall|j: int| !matches_at(text@, head@, tail@, j) by {
        if 0 <= j <= last {
        }
    }
    None
}

/// The leftmost match is the one that `captured` picks.
proof fn lemma_captured_at(s: Seq<char>, head: Seq<char>, tail: Seq<char>, i: int)
    requires
        is_leftmost_match(s, head, tail, i),
    ensures
        captured(s, head, tail) == s.subrange(i + head.len(), s.len() - tail.len()),
{
    let c = choose|c: int| is_leftmost_match(s, head, tail, c);
    assert(is_leftmost_match(s, head, tail, c));
    if c < i {
        assert(!matches_at(s, head, tail, c));
    } else if i < c {
        assert(!matches_at(s, head, tail, i));
    }
}

/// Classifies a console line: a join if the join pattern fits, else a leave if
/// the leave pattern fits, else nothing.
pub fn classify(line: &str) -> (r: Option<DomainEvent>)
    ensures
        event_view(r) == classified(line@),
{
    let text = chars_of(line);
    let n = text.len();
    let jh = chars_of("[JOIN] ");
    let jt = chars_of(" joined the game");
    match leftmost_match(&text, &jh, &jt) {
        Some(i) => {
            proof {
                lemma_captured_at(line@, join_head(), join_tail(), i as int);
            }
            assert(matches_at(text@, jh@, jt@, i as int));
            let name = line.substring_char(i + jh.len(), n - jt.len()).to_owned();
            return Some(DomainEvent::Join { actor_name: name });
        },
        None => {},
    }
    let lh = chars_of("[LEAVE] ");
    let lt = chars_of(" left the game");
    match leftmost_match(&text, &lh, &lt) {
        Some(i) => {
            proof {
                lemma_captured_at(line@, leave_head(), leave_tail(), i as int);
            }
            assert(matches_at(text@, lh@, lt@, i as int));
            let name = line.substring_char(i + lh.len(), n - lt.len()).to_owned();
            Some(DomainEvent::Leave { actor_name: name })
        },
        None => None,
    }
}

/// No line fits both the join and the leave pattern: a join line ends in
/// "joined the game", a leave line in "left the game", and the two endings
/// differ ten characters from the end.
pub proof fn lemma_patterns_disjoint(s: Seq<char>)
    ensures
        !(matches(s, join_head(), join_tail()) && matches(s, leave_head(), leave_tail())),
{
    reveal_strlit(" joined the game");
    reveal_strlit(" left the game");
    if matches(s, join_head(), join_tail()) && matches(s, leave_head(), leave_tail()) {
        let i = choose|i: int| matches_at(s, join_head(), join_tail(), i);
        let j = choose|j: int| matches_at(s, leave_head(), leave_tail(), j);
        assert(s.subrange(s.len() - 16, s.len() as int)[6] == 'd');
        assert(s.subrange(s.len() - 14, s.len() as int)[4] == 't');
    }
}

/// A line whose leftmost join match starts at `i` is a join of the name
/// between the marker and the ending.
pub proof fn lemma_join_at(s: Seq<char>, i: int)
    requires
        is_leftmost_match(s, join_head(), join_tail(), i),
    ensures
        classified(s) == Some(
            (EventKind::Join, s.subrange(i + join_head().len(), s.len() - join_tail().len())),
        ),
{
    lemma_captured_at(s, join_head(), join_tail(), i);
}

/// A line whose leftmost leave match starts at `i` is a leave of the name
/// between the marker and the ending.
pub proof fn lemma_leave_at(s: Seq<char>, i: int)
    requires
        is_leftmost_match(s, leave_head(), leave_tail(), i),
    ensures
        classified(s) == Some(
            (EventKind::Leave, s.subrange(i + leave_head().len(), s.len() - leave_tail().len())),
        ),
{
    lemma_patterns_disjoint(s);
    lemma_captured_at(s, leave_head(), leave_tail(), i);
}

/// `[JOIN] A joined the game`, for any name A without a line break, is a
/// join of A.
pub proof fn lemma_join_line(name: Seq<char>)
    requires
        forall|k: int| 0 <= k < name.len() ==> name[k] != '\n',
    ensures
        classified(join_head() + name + join_tail()) == Some((EventKind::Join, name)),
{
    reveal_strlit("[JOIN] ");
    reveal_strlit(" joined the game");
    let s = join_head() + name + join_tail();
    assert(s.subrange(0, 7) =~= join_head());
    assert(s.subrange(s.len() - 16, s.len() as int) =~= join_tail());
    assert(matches_at(s, join_head(), join_tail(), 0));
    lemma_join_at(s, 0);
    assert(s.subrange(7, s.len() - 16) =~= name);
}

/// `[LEAVE] A left the game`, for any name A without a line break, is a
/// leave of A.
pub proof fn lemma_leave_line(name: Seq<char>)
    requires
        forall|k: int| 0 <= k < name.len() ==> name[k] != '\n',
    ensures
        classified(leave_head() + name + leave_tail()) == Some((EventKind::Leave, name)),
{
    reveal_strlit("[LEAVE] ");
    reveal_strlit(" left the game");
    let s = leave_head() + name + leave_tail();
    assert(s.subrange(0, 8) =~= leave_head());
    assert(s.subrange(s.len() - 14, s.len() as int) =~= leave_tail());
    assert(matches_at(s, leave_head(), leave_tail(), 0));
    lemma_leave_at(s, 0);
    assert(s.subrange(8, s.len() - 14) =~= name);
}

/// A line that fits neither pattern is no event.
pub proof fn lemma_unmatched_line(s: Seq<char>)
    requires
        !matches(s, join_head(), join_tail()),
        !matches(s, leave_head(), leave_tail()),
    ensures
        classified(s) is None,
{
}

} // verus!
