//! The formatting sink: a bounded text device that takes fragments whole or
//! not at all.

use vstd::prelude::*;
use vstd::string::StrSliceExecFns;
use vstd::string::StringExecFns;

verus! {

/// The failure of a sink that could not take a fragment.
#[derive(Clone, Copy, Debug, PartialEq, Eq, Structural)]
pub struct FormatError;

/// What a write, or a whole description, comes to.
pub type FormatResult = Result<(), FormatError>;

/// A description as it reaches a sink: its fragments, in the order in which
/// they are written.
pub type Fragments = Seq<Seq<char>>;

/// A sink as contracts see it: the text it has taken so far and the number
/// of characters it can still take.
pub struct SinkState {
    pub text: Seq<char>,
    pub room: nat,
}

impl SinkState {
    /// Whether the sink can take `fragment`.
    pub open spec fn accepts(self, fragment: Seq<char>) -> bool {
        fragment.len() <= self.room
    }

    /// The sink once it has taken `fragment`.
    pub open spec fn push(self, fragment: Seq<char>) -> SinkState
        recommends
            self.accepts(fragment),
    {
        SinkState { text: self.text + fragment, room: (self.room - fragment.len()) as nat }
    }

    /// The sink after one write: a fragment that does not fit leaves it as
    /// it was.
    pub open spec fn write(self, fragment: Seq<char>) -> SinkState {
        if self.accepts(fragment) {
            self.push(fragment)
        } else {
            self
        }
    }

    /// Whether the sink takes every fragment of `fragments`, written in
    /// order.
    pub open spec fn accepts_all(self, fragments: Fragments) -> bool
        decreases fragments.len(),
    {
        if fragments.len() == 0 {
            true
        } else {
            self.accepts(fragments.first()) && self.push(fragments.first()).accepts_all(
                fragments.drop_first(),
            )
        }
    }

    /// The sink after `fragments` are written in order, where the first
    /// fragment that does not fit ends the writing.
    pub open spec fn write_all(self, fragments: Fragments) -> SinkState
        decreases fragments.len(),
    {
        if fragments.len() == 0 {
            self
        } else if self.accepts(fragments.first()) {
            self.push(fragments.first()).write_all(fragments.drop_first())
        } else {
            self
        }
    }
}

impl SinkState {
    /// A run of one fragment is one write.
    pub proof fn lemma_write_all_one(self, fragment: Seq<char>)
        ensures
            self.accepts_all(seq![fragment]) <==> self.accepts(fragment),
            self.write_all(seq![fragment]) == self.write(fragment),
    {
        reveal_with_fuel(SinkState::accepts_all, 2);
        reveal_with_fuel(SinkState::write_all, 2);
        assert(seq![fragment].first() == fragment);
        assert(seq![fragment].drop_first() =~= Seq::<Seq<char>>::empty());
    }

    /// Fragments that are all taken come to one write of their whole text,
    /// and they are all taken exactly when that text fits.
    pub proof fn lemma_write_all_taken(self, fragments: Fragments)
        ensures
            self.accepts_all(fragments) <==> self.accepts(fragments.flatten()),
            self.accepts_all(fragments) ==> self.write_all(fragments) == self.push(
                fragments.flatten(),
            ),
        decreases fragments.len(),
    {
        if fragments.len() > 0 {
            let head = fragments.first();
            let rest = fragments.drop_first();
            if self.accepts(head) {
                self.push(head).lemma_write_all_taken(rest);
                assert(self.text + head + rest.flatten() =~= self.text + (head + rest.flatten()));
            }
        } else {
            assert(self.text + fragments.flatten() =~= self.text);
        }
    }

    /// Writing two runs of fragments one after the other is writing the
    /// first run and, if all of it was taken, the second: the first failure
    /// ends the writing.
    pub proof fn lemma_write_all_concat(self, first: Fragments, second: Fragments)
        ensures
            self.accepts_all(first + second) <==> self.accepts_all(first) && self.write_all(
                first,
            ).accepts_all(second),
            self.write_all(first + second) == (if self.accepts_all(first) {
                self.write_all(first).write_all(second)
            } else {
                self.write_all(first)
            }),
        decreases first.len(),
    {
        if first.len() == 0 {
            assert(first + second =~= second);
        } else {
            assert((first + second).first() == first.first());
            assert((first + second).drop_first() =~= first.drop_first() + second);
            if self.accepts(first.first()) {
                self.push(first.first()).lemma_write_all_concat(first.drop_first(), second);
            }
        }
    }
}

/// A text device of bounded room. A fragment is taken whole when it fits in
/// the room that is left, and refused whole when it does not.
pub struct FormatSink {
    text: String,
    room: usize,
}

impl View for FormatSink {
    type V = SinkState;

    closed spec fn view(&self) -> SinkState {
        SinkState { text: self.text@, room: self.room as nat }
    }
}

impl FormatSink {
    /// An empty sink with room for `room` characters.
    pub fn new(room: usize) -> (sink: FormatSink)
        ensures
            sink@ == (SinkState { text: Seq::<char>::empty(), room: room as nat }),
    {
        FormatSink { text: String::new(), room }
    }

    /// Writes one fragment. It is appended whole if it fits; otherwise the
    /// sink stays as it was and the write fails.
    pub fn write_str(&mut self, fragment: &str) -> (res: FormatResult)
        ensures
            res is Ok <==> old(self)@.accepts(fragment@),
            final(self)@ == old(self)@.write(fragment@),
    {
        let n: usize = fragment.unicode_len();
        if n <= self.room {
            self.text.append(fragment);
            self.room = self.room - n;
            Ok(())
        } else {
            Err(FormatError)
        }
    }

    /// The text taken so far.
    pub fn as_str(&self) -> (text: &str)
        ensures
            text@ == self@.text,
    {
        self.text.as_str()
    }

    /// The number of characters that still fit.
    pub fn room(&self) -> (room: usize)
        ensures
            room as nat == self@.room,
    {
        self.room
    }
}

} // verus!
