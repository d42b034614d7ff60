//! Structural descriptions for diagnostics: the capability and the
//! combinator that labels what it wraps.

use crate::sink::FormatResult;
use crate::sink::FormatSink;
use crate::sink::Fragments;
use crate::sink::SinkState;
use vstd::prelude::*;

verus! {

/// The capability of describing oneself into a sink.
///
/// A description is a fixed sequence of fragments. `describe` writes them
/// in order and stops at the first one that the sink refuses: nothing is
/// written after a failure, and the failure is what `describe` returns.
/// It fails for no other reason.
pub trait Describeable {
    /// The fragments that `describe` writes, in order.
    spec fn fragments(&self) -> Fragments;

    /// Writes the description to `sink`: every fragment if the sink takes
    /// them all, else those before the first that it refuses.
    fn describe(&self, sink: &mut FormatSink) -> (res: FormatResult)
        ensures
            res is Ok <==> old(sink)@.accepts_all(self.fragments()),
            final(sink)@ == old(sink)@.write_all(self.fragments()),
    ;
}

/// The text that a value's description comes to when every fragment is
/// taken.
pub open spec fn description_of<T: Describeable>(value: &T) -> Seq<char> {
    value.fragments().flatten()
}

/// A description with the label around it.
pub open spec fn labelled(description: Seq<char>) -> Seq<char> {
    "Describe("@ + description + ")"@
}

/// Owns one describable value and labels its description: `Describe(`, the
/// value's own description, `)`.
pub struct Describer<T: Describeable>(pub T);

impl<T: Describeable> Describeable for Describer<T> {
    open spec fn fragments(&self) -> Fragments {
        seq!["Describe("@] + self.0.fragments() + seq![")"@]
    }

    /// Writes the label, then the wrapped value's description, then the
    /// closing bracket, and stops at the first of these that fails.
    ///
    /// It succeeds exactly when the labelled description fits the sink as a
    /// whole, and then appends it. When it fails, the sink holds what was
    /// taken before the failure and nothing after it: nothing new if the
    /// label was refused, else the label and what the wrapped value wrote.
    /// A failure of the wrapped value is a failure of the describer, and no
    /// failure is followed by a closing bracket.
    fn describe(&self, sink: &mut FormatSink) -> (res: FormatResult)
        ensures
            res is Ok <==> old(sink)@.accepts(labelled(description_of(&self.0))),
            res is Ok ==> final(sink)@ == old(sink)@.push(labelled(description_of(&self.0))),
            res is Err ==> final(sink)@ == (if old(sink)@.accepts("Describe("@) {
                old(sink)@.push("Describe("@).write_all(self.0.fragments())
            } else {
                old(sink)@
            }),
            old(sink)@.accepts("Describe("@) && !old(sink)@.push("Describe("@).accepts_all(
                self.0.fragments(),
            ) ==> res is Err,
    {
        proof {
            lemma_labelled_writes(sink@, self.0.fragments());
        }
        match sink.write_str("Describe(") {
            Ok(()) => {},
            Err(e) => {
                return Err(e);
            },
        }
        let described = self.0.describe(sink);
        close_label(sink, described)
    }
}

/// Ends a labelled description once the wrapped value has had its turn.
/// Whatever that value's `describe` returned, a failure is handed on as it
/// is and the sink is left alone; only after a success is the closing
/// bracket written, and then the outcome is that of this last write.
pub fn close_label(sink: &mut FormatSink, described: FormatResult) -> (res: FormatResult)
    ensures
        described is Err ==> res == described && final(sink)@ == old(sink)@,
        described is Ok ==> (res is Ok <==> old(sink)@.accepts(")"@)) && final(sink)@ == old(
            sink,
        )@.write(")"@),
{
    match described {
        Ok(()) => sink.write_str(")"),
        Err(e) => Err(e),
    }
}

impl<T: Describeable> Describer<T> {
    /// The plain showing of a describer: it does to the sink what the
    /// wrapped value's own `describe` does, and adds no label.
    pub fn fmt(&self, sink: &mut FormatSink) -> (res: FormatResult)
        ensures
            res is Ok <==> old(sink)@.accepts_all(self.0.fragments()),
            final(sink)@ == old(sink)@.write_all(self.0.fragments()),
            res is Ok <==> old(sink)@.accepts(description_of(&self.0)),
            res is Ok ==> final(sink)@ == old(sink)@.push(description_of(&self.0)),
    {
        proof {
            sink@.lemma_write_all_taken(self.0.fragments());
        }
        self.0.describe(sink)
    }
}

/// A describer's description is the wrapped value's with the label around
/// it.
pub proof fn lemma_description_is_labelled<T: Describeable>(describer: &Describer<T>)
    ensures
        description_of(describer) == labelled(description_of(&describer.0)),
{
    let inner = describer.0.fragments();
    vstd::seq_lib::lemma_flatten_concat(seq!["Describe("@] + inner, seq![")"@]);
    vstd::seq_lib::lemma_flatten_concat(seq!["Describe("@], inner);
    seq!["Describe("@].lemma_flatten_one_element();
    seq![")"@].lemma_flatten_one_element();
}

/// Describing a describer is not showing it. The shown text is the wrapped
/// value's description; the described text is longer by the ten characters
/// of the label, so the two differ, and they leave every sink that takes
/// the described text in different states.
pub proof fn lemma_describing_is_not_showing<T: Describeable>(
    describer: &Describer<T>,
    sink: SinkState,
)
    ensures
        description_of(describer).len() == description_of(&describer.0).len() + 10,
        description_of(describer) != description_of(&describer.0),
        sink.accepts_all(describer.fragments()) ==> sink.write_all(describer.fragments())
            != sink.write_all(describer.0.fragments()),
{
    lemma_description_is_labelled(describer);
    reveal_strlit("Describe(");
    reveal_strlit(")");
    if sink.accepts_all(describer.fragments()) {
        sink.lemma_write_all_taken(describer.fragments());
        sink.lemma_write_all_taken(describer.0.fragments());
    }
}

/// What writing the label, some fragments and the closing bracket does to a
/// sink, step by step and as a whole.
proof fn lemma_labelled_writes(s: SinkState, inner: Fragments)
    ensures
        ({
            let all = seq!["Describe("@] + inner + seq![")"@];
            let opened = s.push("Describe("@);
            let described = opened.write_all(inner);
            &&& s.accepts_all(all) <==> s.accepts("Describe("@) && opened.accepts_all(inner)
                && described.accepts(")"@)
            &&& s.accepts_all(all) <==> s.accepts(labelled(inner.flatten()))
            &&& s.write_all(all) == (if !s.accepts("Describe("@) {
                s
            } else if !opened.accepts_all(inner) {
                described
            } else {
                described.write(")"@)
            })
            &&& s.accepts_all(all) ==> s.write_all(all) == s.push(labelled(inner.flatten()))
        }),
{
    let open = seq!["Describe("@];
    let close = seq![")"@];
    let opened = s.push("Describe("@);
    let described = opened.write_all(inner);
    assert(open + inner + close =~= open + (inner + close));
    s.lemma_write_all_concat(open, inner + close);
    s.lemma_write_all_one("Describe("@);
    opened.lemma_write_all_concat(inner, close);
    described.lemma_write_all_one(")"@);
    opened.lemma_write_all_taken(inner);
    if s.accepts_all(open + inner + close) {
        assert(s.text + "Describe("@ + inner.flatten() + ")"@ =~= s.text + labelled(
            inner.flatten(),
        ));
    }
}

} // verus!
