//! The context window around one gap, the features read from it, and the
//! score that the model gives them.

use crate::category::CategoryTag;
use crate::model::BIAS;
use crate::text::{lemma_views_push, pair, string, triple, views};
use crate::weights::{get_score, lookup, WeightTable};
use vstd::prelude::*;

verus! {

/// What was decided at an earlier gap.
#[derive(Clone, Copy, Debug, PartialEq, Eq, Structural)]
pub enum Decision {
    /// Nothing yet: the gap lies before the text (`U`).
    Unknown,
    /// A boundary (`B`).
    Boundary,
    /// No boundary (`O`).
    Inside,
}

impl Decision {
    /// The letter by which the model's feature keys name the decision.
    pub open spec fn letter(self) -> char {
        match self {
            Decision::Unknown => 'U',
            Decision::Boundary => 'B',
            Decision::Inside => 'O',
        }
    }

    /// The decision's letter as a one-character string.
    pub fn as_str(self) -> (s: &'static str)
        ensures
            s@ == seq![self.letter()],
    {
        proof {
            reveal_strlit("U");
            reveal_strlit("B");
            reveal_strlit("O");
        }
        let s = match self {
            Decision::Unknown => "U",
            Decision::Boundary => "B",
            Decision::Inside => "O",
        };
        assert(s@ =~= seq![self.letter()]);
        s
    }
}

/// What the model sees at one gap: six units of text, three before the gap
/// and three after it, their categories, and the last three decisions,
/// the oldest first.
#[verifier::ext_equal]
pub struct Context {
    pub raw: Seq<Seq<char>>,
    pub tags: Seq<CategoryTag>,
    pub history: Seq<Decision>,
}

impl Context {
    /// The unit at place `i`, counted from one; the gap lies between the
    /// places three and four.
    pub open spec fn w(self, i: int) -> Seq<char> {
        self.raw[i - 1]
    }

    /// The category letter at place `i`, counted from one.
    pub open spec fn c(self, i: int) -> Seq<char> {
        seq![self.tags[i - 1].letter()]
    }

    /// The letter of the decision at place `i`, counted from one; the third
    /// is the latest.
    pub open spec fn p(self, i: int) -> Seq<char> {
        seq![self.history[i - 1].letter()]
    }

    /// The features of the context, forty-two in all: each a family and the
    /// key to look up in it. Every unit and every category is read alone;
    /// pairs and triples are read around the gap.
    pub open spec fn features(self) -> Seq<(Seq<char>, Seq<char>)> {
        seq![
            ("UP1"@, self.p(1)),
            ("UP2"@, self.p(2)),
            ("UP3"@, self.p(3)),
            ("BP1"@, self.p(1) + self.p(2)),
            ("BP2"@, self.p(2) + self.p(3)),
            ("UW1"@, self.w(1)),
            ("UW2"@, self.w(2)),
            ("UW3"@, self.w(3)),
            ("UW4"@, self.w(4)),
            ("UW5"@, self.w(5)),
            ("UW6"@, self.w(6)),
            ("BW1"@, self.w(2) + self.w(3)),
            ("BW2"@, self.w(3) + self.w(4)),
            ("BW3"@, self.w(4) + self.w(5)),
            ("TW1"@, self.w(1) + self.w(2) + self.w(3)),
            ("TW2"@, self.w(2) + self.w(3) + self.w(4)),
            ("TW3"@, self.w(3) + self.w(4) + self.w(5)),
            ("TW4"@, self.w(4) + self.w(5) + self.w(6)),
            ("UC1"@, self.c(1)),
            ("UC2"@, self.c(2)),
            ("UC3"@, self.c(3)),
            ("UC4"@, self.c(4)),
            ("UC5"@, self.c(5)),
            ("UC6"@, self.c(6)),
            ("BC1"@, self.c(2) + self.c(3)),
            ("BC2"@, self.c(3) + self.c(4)),
            ("BC3"@, self.c(4) + self.c(5)),
            ("TC1"@, self.c(1) + self.c(2) + self.c(3)),
            ("TC2"@, self.c(2) + self.c(3) + self.c(4)),
            ("TC3"@, self.c(3) + self.c(4) + self.c(5)),
            ("TC4"@, self.c(4) + self.c(5) + self.c(6)),
            ("UQ1"@, self.p(1) + self.c(1)),
            ("UQ2"@, self.p(2) + self.c(2)),
            ("UQ3"@, self.p(3) + self.c(3)),
            ("BQ1"@, self.p(2) + (self.c(2) + self.c(3))),
            ("BQ2"@, self.p(2) + (self.c(3) + self.c(4))),
            ("BQ3"@, self.p(3) + (self.c(2) + self.c(3))),
            ("BQ4"@, self.p(3) + (self.c(3) + self.c(4))),
            ("TQ1"@, self.p(2) + (self.c(1) + self.c(2) + self.c(3))),
            ("TQ2"@, self.p(2) + (self.c(2) + self.c(3) + self.c(4))),
            ("TQ3"@, self.p(3) + (self.c(1) + self.c(2) + self.c(3))),
            ("TQ4"@, self.p(3) + (self.c(2) + self.c(3) + self.c(4))),
        ]
    }
}

/// The weights that `table` gives to `features`, added up.
pub open spec fn total(
    table: Map<Seq<char>, Map<Seq<char>, i32>>,
    features: Seq<(Seq<char>, Seq<char>)>,
) -> int
    decreases features.len(),
{
    if features.len() == 0 {
        0
    } else {
        total(table, features.drop_last()) + lookup(
            table,
            features.last().0,
            features.last().1,
        )
    }
}

/// The score of a gap: the bias and the weight of every feature of its context.
pub open spec fn score(context: Context, table: Map<Seq<char>, Map<Seq<char>, i32>>) -> int {
    BIAS + total(table, context.features())
}

/// The context of the gap before position `i` of a padded text: the
/// positions `i - 3` to `i + 2`, with the decisions `history`.
pub open spec fn context_at(
    units: Seq<Seq<char>>,
    tags: Seq<CategoryTag>,
    history: Seq<Decision>,
    i: int,
) -> Context {
    Context { raw: units.subrange(i - 3, i + 3), tags: tags.subrange(i - 3, i + 3), history }
}

/// `history` after one more decision: the oldest leaves, `latest` comes last.
pub open spec fn remember(history: Seq<Decision>, latest: Decision) -> Seq<Decision> {
    history.drop_first().push(latest)
}

/// The window that moves over a padded text, one position at a time.
pub struct ContextWindow {
    raw: Vec<String>,
    tags: Vec<CategoryTag>,
    history: Vec<Decision>,
}

/// One feature: its family, and its key.
pub struct Feature {
    pub family: &'static str,
    pub key: String,
}

impl View for Feature {
    type V = (Seq<char>, Seq<char>);

    open spec fn view(&self) -> Self::V {
        (self.family@, self.key@)
    }
}

/// What each feature of a list stands for.
pub open spec fn feature_views(features: Seq<Feature>) -> Seq<(Seq<char>, Seq<char>)> {
    features.map_values(|feature: Feature| feature@)
}

impl View for ContextWindow {
    type V = Context;

    closed spec fn view(&self) -> Context {
        Context { raw: views(self.raw@), tags: self.tags@, history: self.history@ }
    }
}

impl ContextWindow {
    /// The window holds six units, six categories and three decisions.
    pub open spec fn wf(&self) -> bool {
        &&& self@.raw.len() == 6
        &&& self@.tags.len() == 6
        &&& self@.history.len() == 3
    }

    /// The window over the first six positions of a padded text, before
    /// anything was decided.
    pub fn seed(segments: &Vec<String>, ctype: &Vec<CategoryTag>) -> (window: Self)
        requires
            segments.len() >= 6,
            ctype.len() >= 6,
        ensures
            window.wf(),
            window@ == context_at(
                views(segments@),
                ctype@,
                seq![Decision::Unknown, Decision::Unknown, Decision::Unknown],
                3,
            ),
    {
        let mut raw: Vec<String> = Vec::new();
        let mut tags: Vec<CategoryTag> = Vec::new();
        let mut i: usize = 0;
        while i < 6
            invariant
                i <= 6,
                segments.len() >= 6,
                ctype.len() >= 6,
                views(raw@) == views(segments@).subrange(0, i as int),
                tags@ == ctype@.subrange(0, i as int),
            decreases 6 - i,
        {
            let unit = segments[i].clone();
            proof {
                lemma_views_push(raw@, unit);
                assert(views(segments@).subrange(0, i + 1) =~= views(segments@).subrange(
                    0,
                    i as int,
                ).push(unit@));
                assert(ctype@.subrange(0, i + 1) =~= ctype@.subrange(0, i as int).push(
                    ctype@[i as int],
                ));
            }
            raw.push(unit);
            tags.push(ctype[i]);
            i = i + 1;
        }
        let mut history: Vec<Decision> = Vec::new();
        history.push(Decision::Unknown);
        history.push(Decision::Unknown);
        history.push(Decision::Unknown);
        assert(history@ =~= seq![Decision::Unknown, Decision::Unknown, Decision::Unknown]);
        ContextWindow { raw, tags, history }
    }

    /// Moves the window one position on: the oldest unit and category leave,
    /// `unit` and `tag` come in at the far end.
    pub fn advance(&mut self, unit: String, tag: CategoryTag)
        requires
            old(self).wf(),
        ensures
            final(self).wf(),
            final(self)@.raw == old(self)@.raw.drop_first().push(unit@),
            final(self)@.tags == old(self)@.tags.drop_first().push(tag),
            final(self)@.history == old(self)@.history,
    {
        self.raw.remove(0);
        self.raw.push(unit);
        self.tags.remove(0);
        self.tags.push(tag);
        assert(self@.raw =~= old(self)@.raw.drop_first().push(unit@));
        assert(self@.tags =~= old(self)@.tags.drop_first().push(tag));
    }

    /// Takes note of the decision at the gap just judged.
    pub fn record(&mut self, latest: Decision)
        requires
            old(self).wf(),
        ensures
            final(self).wf(),
            final(self)@.raw == old(self)@.raw,
            final(self)@.tags == old(self)@.tags,
            final(self)@.history == remember(old(self)@.history, latest),
    {
        self.history.remove(0);
        self.history.push(latest);
        assert(self@.history =~= remember(old(self)@.history, latest));
    }

    /// The features of the window, in the model's order.
    pub fn features(&self) -> (features: Vec<Feature>)
        requires
            self.wf(),
        ensures
            feature_views(features@) == self@.features(),
    {
        let p1 = self.history[0].as_str();
        let p2 = self.history[1].as_str();
        let p3 = self.history[2].as_str();
        let w1 = self.raw[0].as_str();
        let w2 = self.raw[1].as_str();
        let w3 = self.raw[2].as_str();
        let w4 = self.raw[3].as_str();
        let w5 = self.raw[4].as_str();
        let w6 = self.raw[5].as_str();
        let c1 = self.tags[0].as_str();
        let c2 = self.tags[1].as_str();
        let c3 = self.tags[2].as_str();
        let c4 = self.tags[3].as_str();
        let c5 = self.tags[4].as_str();
        let c6 = self.tags[5].as_str();
        let c2c3 = pair(c2, c3);
        let c3c4 = pair(c3, c4);
        let c1c2c3 = triple(c1, c2, c3);
        let c2c3c4 = triple(c2, c3, c4);
        let mut features: Vec<Feature> = Vec::new();
        features.push(Feature { family: "UP1", key: string(p1) });
        features.push(Feature { family: "UP2", key: string(p2) });
        features.push(Feature { family: "UP3", key: string(p3) });
        features.push(Feature { family: "BP1", key: pair(p1, p2) });
        features.push(Feature { family: "BP2", key: pair(p2, p3) });
        features.push(Feature { family: "UW1", key: string(w1) });
        features.push(Feature { family: "UW2", key: string(w2) });
        features.push(Feature { family: "UW3", key: string(w3) });
        features.push(Feature { family: "UW4", key: string(w4) });
        features.push(Feature { family: "UW5", key: string(w5) });
        features.push(Feature { family: "UW6", key: string(w6) });
        features.push(Feature { family: "BW1", key: pair(w2, w3) });
        features.push(Feature { family: "BW2", key: pair(w3, w4) });
        features.push(Feature { family: "BW3", key: pair(w4, w5) });
        features.push(Feature { family: "TW1", key: triple(w1, w2, w3) });
        features.push(Feature { family: "TW2", key: triple(w2, w3, w4) });
        features.push(Feature { family: "TW3", key: triple(w3, w4, w5) });
        features.push(Feature { family: "TW4", key: triple(w4, w5, w6) });
        features.push(Feature { family: "UC1", key: string(c1) });
        features.push(Feature { family: "UC2", key: string(c2) });
        features.push(Feature { family: "UC3", key: string(c3) });
        features.push(Feature { family: "UC4", key: string(c4) });
        features.push(Feature { family: "UC5", key: string(c5) });
        features.push(Feature { family: "UC6", key: string(c6) });
        features.push(Feature { family: "BC1", key: pair(c2, c3) });
        features.push(Feature { family: "BC2", key: pair(c3, c4) });
        features.push(Feature { family: "BC3", key: pair(c4, c5) });
        features.push(Feature { family: "TC1", key: triple(c1, c2, c3) });
        features.push(Feature { family: "TC2", key: triple(c2, c3, c4) });
        features.push(Feature { family: "TC3", key: triple(c3, c4, c5) });
        features.push(Feature { family: "TC4", key: triple(c4, c5, c6) });
        features.push(Feature { family: "UQ1", key: pair(p1, c1) });
        features.push(Feature { family: "UQ2", key: pair(p2, c2) });
        features.push(Feature { family: "UQ3", key: pair(p3, c3) });
        features.push(Feature { family: "BQ1", key: pair(p2, c2c3.as_str()) });
        features.push(Feature { family: "BQ2", key: pair(p2, c3c4.as_str()) });
        features.push(Feature { family: "BQ3", key: pair(p3, c2c3.as_str()) });
        features.push(Feature { family: "BQ4", key: pair(p3, c3c4.as_str()) });
        features.push(Feature { family: "TQ1", key: pair(p2, c1c2c3.as_str()) });
        features.push(Feature { family: "TQ2", key: pair(p2, c2c3c4.as_str()) });
        features.push(Feature { family: "TQ3", key: pair(p3, c1c2c3.as_str()) });
        features.push(Feature { family: "TQ4", key: pair(p3, c2c3c4.as_str()) });
        assert(feature_views(features@) =~= self@.features());
        features
    }
}

/// The score of the gap in the middle of the window.
pub fn compute_score(ngram_info: &ContextWindow, str_score_map: &WeightTable) -> (total_score: i64)
    requires
        ngram_info.wf(),
    ensures
        total_score == score(ngram_info@, str_score_map@),
{
    let features = ngram_info.features();
    assert(features@.len() == feature_views(features@).len());
    assert(ngram_info@.features().len() == 42);
    let mut total_score: i64 = BIAS;
    let mut i: usize = 0;
    while i < features.len()
        invariant
            i <= features.len(),
            features.len() == 42,
            feature_views(features@) == ngram_info@.features(),
            total_score == BIAS + total(str_score_map@, ngram_info@.features().take(i as int)),
            -332 - i * 0x8000_0000 <= total_score <= -332 + i * 0x8000_0000,
        decreases features.len() - i,
    {
        let weight = get_score(features[i].family, features[i].key.as_str(), str_score_map);
        proof {
            let all = ngram_info@.features();
            assert(all[i as int] == features@[i as int]@);
            assert(all.take(i + 1).drop_last() =~= all.take(i as int));
        }
        total_score = total_score + weight as i64;
        i = i + 1;
    }
    proof {
        let all = ngram_info@.features();
        assert(all.take(all.len() as int) =~= all);
    }
    total_score
}

} // verus!
