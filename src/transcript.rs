//! Transcripts: reading a segment's samples, grouping the recognition
//! engine's output into speaker turns, and joining turns for summarisation.

use vstd::prelude::*;
use crate::manifest::views;

verus! {

/// One record of the recognition engine's output.
pub struct EngineSegment {
    pub start_ms: i64,
    pub end_ms: i64,
    pub text: String,
    /// Whether the speaker changes after this record.
    pub speaker_turn_next: bool,
}

/// The spans of text between speaker turns: the texts of the records are
/// appended to the current span, and a speaker turn opens a new one.
pub open spec fn spans_of(records: Seq<EngineSegment>) -> Seq<Seq<char>>
    decreases records.len(),
{
    if records.len() == 0 {
        seq![seq![]]
    } else {
        let prev = spans_of(records.drop_last());
        let r = records.last();
        let cur = prev.update(prev.len() - 1, prev.last() + r.text@);
        if r.speaker_turn_next {
            cur.push(seq![])
        } else {
            cur
        }
    }
}

/// A transcript: its spans of text, one per speaker turn.
pub struct TranscriptionJSON {
    pub full_text: Vec<String>,
}

/// Groups the engine's records into the spans of a transcript.
pub fn group_spans(records: &Vec<EngineSegment>) -> (r: TranscriptionJSON)
    ensures
        views(r.full_text@) == spans_of(records@),
{
    let mut done: Vec<String> = Vec::new();
    let mut cur = String::new();
    let mut i: usize = 0;
    assert(views(done@).push(cur@) =~= spans_of(records@.take(0)));
    while i < records.len()
        invariant
            i <= records.len(),
            views(done@).push(cur@) == spans_of(records@.take(i as int)),
        decreases records.len() - i,
    {
        assert(records@.take(i + 1).drop_last() =~= records@.take(i as int));
        let rec = &records[i];
        cur.append(rec.text.as_str());
        if rec.speaker_turn_next {
            let ghost prev = views(done@);
            done.push(cur);
            cur = String::new();
            assert(views(done@) =~= prev.push(done@.last()@));
            assert(views(done@).push(cur@) =~= spans_of(records@.take(i + 1)));
        } else {
            assert(views(done@).push(cur@) =~= spans_of(records@.take(i + 1)));
        }
        i = i + 1;
    }
    assert(records@.take(records.len() as int) =~= records@);
    let ghost prev = views(done@);
    done.push(cur);
    assert(views(done@) =~= prev.push(done@.last()@));
    TranscriptionJSON { full_text: done }
}

/// The characters of all spans, one after the other.
pub open spec fn flatten(spans: Seq<Seq<char>>) -> Seq<char>
    decreases spans.len(),
{
    if spans.len() == 0 {
        seq![]
    } else {
        flatten(spans.drop_last()) + spans.last()
    }
}

/// The texts of all records, one after the other.
pub open spec fn all_text(records: Seq<EngineSegment>) -> Seq<char>
    decreases records.len(),
{
    if records.len() == 0 {
        seq![]
    } else {
        all_text(records.drop_last()) + records.last().text@
    }
}

/// The number of speaker turns among the records.
pub open spec fn turns(records: Seq<EngineSegment>) -> nat
    decreases records.len(),
{
    if records.len() == 0 {
        0
    } else {
        turns(records.drop_last()) + if records.last().speaker_turn_next {
            1nat
        } else {
            0nat
        }
    }
}

proof fn lemma_flatten_push(spans: Seq<Seq<char>>, s: Seq<char>)
    ensures
        flatten(spans.push(s)) == flatten(spans) + s,
{
    assert(spans.push(s).drop_last() =~= spans);
}

/// Grouping into spans keeps every character of the engine's output, in
/// order, and cuts it once per speaker turn: a transcript made twice of the
/// same records has the same spans and the same boundaries.
pub proof fn lemma_spans_keep_text(records: Seq<EngineSegment>)
    ensures
        flatten(spans_of(records)) == all_text(records),
        spans_of(records).len() == turns(records) + 1,
    decreases records.len(),
{
    if records.len() == 0 {
        let one: Seq<Seq<char>> = seq![Seq::<char>::empty()];
        assert(one.drop_last() =~= Seq::<Seq<char>>::empty());
        assert(flatten(one.drop_last()) == Seq::<char>::empty());
        assert(flatten(one) =~= Seq::<char>::empty());
        assert(spans_of(records) == one);
    } else {
        let prev = spans_of(records.drop_last());
        lemma_spans_keep_text(records.drop_last());
        let r = records.last();
        let body = prev.drop_last();
        assert(prev =~= body.push(prev.last()));
        let cur = prev.update(prev.len() - 1, prev.last() + r.text@);
        assert(cur =~= body.push(prev.last() + r.text@));
        lemma_flatten_push(body, prev.last());
        lemma_flatten_push(body, prev.last() + r.text@);
        if r.speaker_turn_next {
            lemma_flatten_push(cur, seq![]);
            assert(flatten(cur.push(seq![])) =~= flatten(cur));
        }
    }
}

/// What separates two speaker turns in the text handed to summarisation.
pub open spec fn turn_separator() -> Seq<char> {
    " CHANGE_SPEAKER_TOKEN "@
}

/// The spans joined by the turn separator.
pub open spec fn joined_turns(spans: Seq<Seq<char>>) -> Seq<char>
    decreases spans.len(),
{
    if spans.len() == 0 {
        seq![]
    } else if spans.len() == 1 {
        spans[0]
    } else {
        joined_turns(spans.drop_last()) + turn_separator() + spans.last()
    }
}

impl TranscriptionJSON {
    /// The transcript's text as summarisation reads it: the spans joined by
    /// ` CHANGE_SPEAKER_TOKEN `.
    pub fn summary_input(&self) -> (r: String)
        ensures
            r@ == joined_turns(views(self.full_text@)),
    {
        let mut out = String::new();
        let mut i: usize = 0;
        while i < self.full_text.len()
            invariant
                i <= self.full_text.len(),
                out@ == joined_turns(views(self.full_text@).take(i as int)),
            decreases self.full_text.len() - i,
        {
            assert(views(self.full_text@).take(i + 1).drop_last() =~= views(self.full_text@).take(
                i as int,
            ));
            if i > 0 {
                out.append(" CHANGE_SPEAKER_TOKEN ");
            } else {
                assert(out@ =~= seq![]);
            }
            out.append(self.full_text[i].as_str());
            assert(out@ =~= joined_turns(views(self.full_text@).take(i + 1)));
            i = i + 1;
        }
        assert(views(self.full_text@).take(self.full_text.len() as int) =~= views(self.full_text@));
        out
    }

    /// The transcript of consecutive parts: their spans one after the other.
    pub fn merge(parts: &Vec<TranscriptionJSON>) -> (r: TranscriptionJSON)
        ensures
            views(r.full_text@) == merged_spans(parts@),
    {
        let mut all: Vec<String> = Vec::new();
        let mut i: usize = 0;
        while i < parts.len()
            invariant
                i <= parts.len(),
                views(all@) == merged_spans(parts@.take(i as int)),
            decreases parts.len() - i,
        {
            assert(parts@.take(i + 1).drop_last() =~= parts@.take(i as int));
            let ghost before = views(all@);
            let part = &parts[i].full_text;
            let mut k: usize = 0;
            while k < part.len()
                invariant
                    k <= part.len(),
                    views(all@) == before + views(part@).take(k as int),
                decreases part.len() - k,
            {
                let ghost prev = views(all@);
                all.push(part[k].clone());
                assert(views(all@) =~= prev.push(part@[k as int]@));
                assert(views(part@).take(k + 1) =~= views(part@).take(k as int).push(part@[k as int]@));
                k = k + 1;
            }
            assert(views(part@).take(part.len() as int) =~= views(part@));
            i = i + 1;
        }
        assert(parts@.take(parts.len() as int) =~= parts@);
        TranscriptionJSON { full_text: all }
    }
}

/// The spans of consecutive transcripts, one after the other.
pub open spec fn merged_spans(parts: Seq<TranscriptionJSON>) -> Seq<Seq<char>>
    decreases parts.len(),
{
    if parts.len() == 0 {
        seq![]
    } else {
        merged_spans(parts.drop_last()) + views(parts.last().full_text@)
    }
}

} // verus!
