//! Compiled patterns, match regions, and capture enumeration.
//!
//! [`Pattern`] owns one compiled native pattern; [`MatchRegion`] owns one
//! native capture table produced by a successful search; a
//! [`PositionIterator`] walks that table lazily.  All decisions around
//! the engine — which statuses become `None`, which become errors, how
//! captures are read out — are verified here against the contracts of
//! the trusted engine boundary.

use vstd::prelude::*;

use crate::engine;
use crate::error::{decode, ErrorKind, RegexError};

verus! {

use vstd::string::StringSliceAdditionalSpecFns;

/// The span pair that stands for a capture group that took no part in
/// the match: both offsets are the engine's "no position" sentinel.
pub open spec fn sentinel_pair() -> (usize, usize) {
    (usize::MAX, usize::MAX)
}

/// The pair a capture entry presents: its span, or the sentinel pair
/// where the group took no part in the match.
pub open spec fn pair_or_sentinel(entry: Option<(usize, usize)>) -> (usize, usize) {
    match entry {
        Some(p) => p,
        None => sentinel_pair(),
    }
}

/// One compiled regular expression, owning its native compiled block.
/// A value of this type exists only in the compiled state: construction
/// through [`Pattern::compile`] either completes the native compile or
/// hands back an error, never a partly initialized pattern.
#[derive(Debug)]
pub struct Pattern {
    regex: onig::Regex,
}

/// The capture table produced by one successful search.  The value owns
/// its native allocation; duplication through `clone` copies the
/// allocation through the engine, so the copy and the original can be
/// dropped independently, each releasing its own allocation once.
#[derive(Debug)]
pub struct MatchRegion {
    region: onig::Region,
    num_regs: usize,
}

impl MatchRegion {
    /// The capture table: entry `i` is capture `i`'s byte span into the
    /// haystack that produced this region, or `None` where group `i`
    /// took no part in the match.  Entry `0` spans the whole match.
    pub closed spec fn pairs(&self) -> Seq<Option<(usize, usize)>> {
        engine::region_table(self.region)
    }

    #[verifier::type_invariant]
    spec fn inv(self) -> bool {
        &&& self.num_regs == engine::region_table(self.region).len()
        &&& self.num_regs >= 1
        &&& forall|i: int|
            0 <= i < engine::region_table(self.region).len() ==> ((#[trigger] engine::region_table(
                self.region,
            )[i]) matches Some(p) ==> p.0 <= p.1)
    }

    /// The number of capture entries, the whole-match entry included;
    /// at least one on every region a search produced.
    pub fn num_regs(&self) -> (n: usize)
        ensures
            n == self.pairs().len(),
            n >= 1,
    {
        proof {
            use_type_invariant(self);
        }
        self.num_regs
    }

    /// The span of capture `i`: its `(start, end)` byte offsets, or the
    /// sentinel pair where group `i` is out of range or took no part in
    /// the match.
    pub fn pair_at(&self, i: usize) -> (p: (usize, usize))
        ensures
            p == (if i < self.pairs().len() {
                pair_or_sentinel(self.pairs()[i as int])
            } else {
                sentinel_pair()
            }),
    {
        match engine::region_pos(&self.region, i) {
            Some(p) => p,
            None => (usize::MAX, usize::MAX),
        }
    }

    /// A fresh, independent sequence over this region's captures,
    /// starting from entry `0`.  The sequence borrows the region and
    /// cannot outlive it; a second call yields a second, independent
    /// sequence over the same table.
    pub fn position(&self) -> (it: PositionIterator<'_>)
        ensures
            it.pairs() == self.pairs(),
            it.cursor() == 0,
    {
        PositionIterator { region: self, cursor: 0 }
    }

    /// Every capture pair of this region in index order, the sentinel
    /// standing in for absent groups — the full sequence a fresh
    /// [`Self::position`] iterator yields.
    pub fn positions_vec(&self) -> (v: Vec<(usize, usize)>)
        ensures
            v@ == position_pairs(*self),
    {
        let mut it = self.position();
        let mut v: Vec<(usize, usize)> = Vec::new();
        loop
            invariant
                it.pairs() == self.pairs(),
                0 <= it.cursor() <= self.pairs().len(),
                v@.len() == it.cursor(),
                forall|j: int|
                    0 <= j < v@.len() ==> #[trigger] v@[j] == pair_or_sentinel(self.pairs()[j]),
            ensures
                v@.len() == self.pairs().len(),
                forall|j: int|
                    0 <= j < v@.len() ==> #[trigger] v@[j] == pair_or_sentinel(self.pairs()[j]),
            decreases self.pairs().len() - it.cursor(),
        {
            match it.next() {
                Some(p) => v.push(p),
                None => {
                    break ;
                },
            }
        }
        proof {
            assert(v@ =~= position_pairs(*self));
        }
        v
    }
}

impl Clone for MatchRegion {
    /// A deep copy through the engine's region-copy primitive: the copy
    /// holds the same capture table in an allocation of its own, so
    /// dropping or mutating either value never touches the other.
    fn clone(&self) -> (c: Self)
        ensures
            c.pairs() == self.pairs(),
    {
        proof {
            use_type_invariant(self);
        }
        let region = engine::region_clone(&self.region);
        MatchRegion { region, num_regs: self.num_regs }
    }
}

/// The sequence of pairs a fresh [`MatchRegion::position`] sequence
/// yields, in index order, the sentinel standing in for absent groups.
pub open spec fn position_pairs(m: MatchRegion) -> Seq<(usize, usize)> {
    Seq::new(m.pairs().len(), |i: int| pair_or_sentinel(m.pairs()[i]))
}

/// Calling `position()` twice on one region yields two sequences that
/// produce identical offset pairs: each is `position_pairs` of the
/// region, which depends on the capture table alone.
pub proof fn lemma_position_twice(m: MatchRegion, s1: Seq<(usize, usize)>, s2: Seq<(usize, usize)>)
    requires
        s1 == position_pairs(m),
        s2 == position_pairs(m),
    ensures
        s1 == s2,
{
}

/// A lazy, finite sequence over a [`MatchRegion`]'s capture entries,
/// yielding each `(start, end)` byte pair in index order.  It keeps only
/// a cursor and the borrowed region; exhaustion is idempotent.
pub struct PositionIterator<'a> {
    region: &'a MatchRegion,
    cursor: usize,
}

impl<'a> PositionIterator<'a> {
    /// The capture table this sequence walks.
    pub closed spec fn pairs(&self) -> Seq<Option<(usize, usize)>> {
        self.region.pairs()
    }

    /// How many entries were already yielded.
    pub closed spec fn cursor(&self) -> int {
        self.cursor as int
    }

    /// Yield the next capture pair and advance, or `None` forever once
    /// the table is exhausted.
    pub fn next(&mut self) -> (item: Option<(usize, usize)>)
        ensures
            final(self).pairs() == old(self).pairs(),
            0 <= final(self).cursor(),
            old(self).cursor() < old(self).pairs().len() ==> {
                &&& item == Some(pair_or_sentinel(old(self).pairs()[old(self).cursor()]))
                &&& final(self).cursor() == old(self).cursor() + 1
            },
            old(self).cursor() >= old(self).pairs().len() ==> {
                &&& item is None
                &&& final(self).cursor() == old(self).cursor()
            },
    {
        let n = self.region.num_regs();
        if self.cursor < n {
            let p = self.region.pair_at(self.cursor);
            self.cursor = self.cursor + 1;
            Some(p)
        } else {
            None
        }
    }
}

/// Everything [`Pattern::compile`] promises of its result for a given
/// pattern text: success exactly when the engine accepts the pattern,
/// the compiled pattern remembering its text, and a rejection decoded
/// into an error carrying the pattern's status code and a non-empty
/// message.
pub open spec fn compile_post(pattern: Seq<char>, r: Result<Pattern, RegexError>) -> bool {
    &&& (r is Ok <==> engine::accepts(pattern))
    &&& (r matches Ok(p) ==> p.source() == pattern)
    &&& (r matches Err(e) ==> {
        &&& e.code == engine::rejection_code(pattern) as i64
        &&& e.message@.len() > 0
        &&& (e.kind == ErrorKind::Compile || e.kind == ErrorKind::Decode)
    })
}

/// Everything [`Pattern::search`] promises of its result, over the
/// engine's status for a pattern source and the haystack bytes: a
/// nonnegative status — a match — yields `Ok(Some)` with the filled
/// region; the mismatch status `-1`, and only it, yields `Ok(None)`;
/// any other negative status — a genuine engine failure — yields a
/// decoded error.
pub open spec fn search_post(
    source: Seq<char>,
    hay: Seq<u8>,
    r: Result<Option<MatchRegion>, RegexError>,
) -> bool {
    match r {
        Ok(found) => match found {
            Some(m) => {
                &&& engine::search_status(source, hay) >= 0
                &&& m.pairs().len() >= 1
                &&& m.pairs()[0] is Some
                &&& engine::spans_within(m.pairs(), hay.len())
            },
            None => engine::search_status(source, hay) == -1,
        },
        Err(e) => {
            &&& engine::search_status(source, hay) < -1
            &&& e.message@.len() > 0
            &&& (e.kind == ErrorKind::SearchFailure || e.kind == ErrorKind::Decode)
        },
    }
}

impl Pattern {
    /// The pattern text this value was compiled from.
    pub closed spec fn source(&self) -> Seq<char> {
        engine::pattern_text(self.regex)
    }

    /// Compile `pattern` against the engine's default syntax in UTF-8.
    /// Compilation succeeds exactly when the engine accepts the
    /// pattern: an accepted pattern comes back as a fully initialized
    /// `Pattern` remembering its text, and a rejected one as a
    /// [`RegexError`] that carries the pattern's status code and always
    /// a non-empty message — the whole promise is [`compile_post`].
    /// Nothing is allocated on the error path.
    pub fn compile(pattern: &str) -> (r: Result<Pattern, RegexError>)
        ensures
            compile_post(pattern@, r),
    {
        match engine::compile_native(pattern) {
            Ok(regex) => Ok(Pattern { regex }),
            Err(e) => {
                let code = engine::error_code(&e);
                let message = engine::error_message(&e);
                Err(decode(ErrorKind::Compile, code as i64, message))
            },
        }
    }

    /// Scan the whole of `haystack` for this pattern.  The outcome
    /// follows the engine's search status and nothing else, as
    /// [`search_post`] states: a match becomes `Ok(Some(region))`, a
    /// fresh region with at least the whole-match entry, present, all
    /// spans ordered byte offsets into `haystack`; the mismatch status,
    /// and only it, becomes `Ok(None)`; any other negative status — a
    /// genuine engine failure — is decoded into a [`RegexError`] with a
    /// non-empty message, in every build.  The engine interface carries
    /// offsets as C `int`, so the haystack must fit in one.
    pub fn search(&self, haystack: &str) -> (r: Result<Option<MatchRegion>, RegexError>)
        requires
            haystack.spec_bytes().len() <= i32::MAX,
        ensures
            search_post(self.source(), haystack.spec_bytes(), r),
    {
        let mut region = engine::region_new();
        match engine::search_native(&self.regex, haystack, &mut region) {
            Ok(Some(_pos)) => {
                let num_regs = engine::region_len(&region);
                Ok(Some(MatchRegion { region, num_regs }))
            },
            Ok(None) => Ok(None),
            Err(e) => {
                let code = engine::error_code(&e);
                let message = engine::error_message(&e);
                Err(decode(ErrorKind::SearchFailure, code as i64, message))
            },
        }
    }
}

/// Every pattern the engine accepts compiles successfully, and the
/// compiled pattern carries exactly that pattern text.
pub proof fn lemma_accepted_pattern_compiles(pattern: Seq<char>, r: Result<Pattern, RegexError>)
    requires
        compile_post(pattern, r),
        engine::accepts(pattern),
    ensures
        r matches Ok(p) && p.source() == pattern,
{
}

/// Every pattern the engine rejects comes back as an error carrying
/// the pattern's status code and a non-empty decoded message.
pub proof fn lemma_rejected_pattern_errs(pattern: Seq<char>, r: Result<Pattern, RegexError>)
    requires
        compile_post(pattern, r),
        !engine::accepts(pattern),
    ensures
        r matches Err(e) && {
            &&& e.code == engine::rejection_code(pattern) as i64
            &&& e.message@.len() > 0
        },
{
}

/// Every search over a haystack the engine matches returns a region
/// with at least one capture entry, the whole-match entry present.
pub proof fn lemma_match_yields_region(
    source: Seq<char>,
    hay: Seq<u8>,
    r: Result<Option<MatchRegion>, RegexError>,
)
    requires
        search_post(source, hay, r),
        engine::search_status(source, hay) >= 0,
    ensures
        r matches Ok(found) && found matches Some(m) && m.pairs().len() >= 1 && m.pairs()[0]
            is Some,
{
}

/// Every search over a haystack with no match returns `Ok(None)` —
/// never an error.
pub proof fn lemma_no_match_is_none(
    source: Seq<char>,
    hay: Seq<u8>,
    r: Result<Option<MatchRegion>, RegexError>,
)
    requires
        search_post(source, hay, r),
        engine::search_status(source, hay) == -1,
    ensures
        r matches Ok(found) && found is None,
{
}

/// Every search the engine fails with a status other than mismatch
/// surfaces as a typed, non-silent error — in every build.
pub proof fn lemma_failure_is_error(
    source: Seq<char>,
    hay: Seq<u8>,
    r: Result<Option<MatchRegion>, RegexError>,
)
    requires
        search_post(source, hay, r),
        engine::search_status(source, hay) < -1,
    ensures
        r matches Err(e) && e.message@.len() > 0 && (e.kind == ErrorKind::SearchFailure || e.kind
            == ErrorKind::Decode),
{
}

} // verus!
