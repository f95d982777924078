//! The trusted boundary around the native regular-expression engine.
//!
//! Everything the library knows about the engine is stated here, as
//! contracts on thin wrappers around the `onig` binding.  The engine's
//! deterministic outcomes are named by uninterpreted functions — which
//! patterns it accepts ([`accepts`]), which text a compiled regex came
//! from ([`pattern_text`]), the status a whole-haystack search returns
//! ([`search_status`]), the code a rejected pattern's error carries
//! ([`rejection_code`]), and the capture table a region holds
//! ([`region_table`]) — and the wrappers relate every call to those
//! names.

use vstd::prelude::*;

verus! {

use vstd::string::StringSliceAdditionalSpecFns;

#[verifier::external_type_specification]
#[verifier::external_body]
pub struct ExRegex(onig::Regex);

#[verifier::external_type_specification]
#[verifier::external_body]
pub struct ExRegion(onig::Region);

#[verifier::external_type_specification]
#[verifier::external_body]
pub struct ExNativeError(onig::Error);

/// Whether the engine accepts `pattern` under its default syntax in
/// UTF-8.  Compilation draws on nothing but the pattern text, so
/// acceptance is a function of it alone.
pub uninterp spec fn accepts(pattern: Seq<char>) -> bool;

/// The pattern text a compiled regex was built from.
pub uninterp spec fn pattern_text(re: onig::Regex) -> Seq<char>;

/// The status code carried by the error value that compiling a rejected
/// `pattern` produces: the engine's own status, or the binding's fixed
/// stand-in where it had to synthesize the error itself.
pub uninterp spec fn rejection_code(pattern: Seq<char>) -> i32;

/// The status code an engine error value carries.
pub uninterp spec fn code_of(e: onig::Error) -> i32;

/// The engine's status for searching the whole of `hay` for `pattern`
/// (compiled as by [`accepts`]): the byte offset where the match
/// attempt succeeded when nonnegative, the mismatch status `-1` when
/// nothing matches, and another negative status on a genuine failure.
/// The search draws on nothing but the compiled pattern and the
/// haystack, so the status is a function of the two texts alone.
pub uninterp spec fn search_status(pattern: Seq<char>, hay: Seq<u8>) -> int;

/// The capture table a region holds: entry `i` is the byte span of
/// capture `i`, or `None` where group `i` took no part in the match.
pub uninterp spec fn region_table(r: onig::Region) -> Seq<Option<(usize, usize)>>;

/// Every present span in `t` is ordered and ends within `limit` bytes.
pub open spec fn spans_within(t: Seq<Option<(usize, usize)>>, limit: nat) -> bool {
    forall|i: int|
        0 <= i < t.len() ==> ((#[trigger] t[i]) matches Some(p) ==> p.0 <= p.1 <= limit)
}

/// Relies on `onig::Regex::new`: compiles the pattern against the
/// engine's default syntax in UTF-8.  It succeeds exactly when the
/// engine accepts the pattern; a compiled regex remembers its text, and
/// a rejected pattern's error carries that pattern's status code.
#[verifier::external_body]
pub(crate) fn compile_native(pattern: &str) -> (r: Result<onig::Regex, onig::Error>)
    ensures
        r is Ok <==> accepts(pattern@),
        r matches Ok(re) ==> pattern_text(re) == pattern@,
        r matches Err(e) ==> code_of(e) == rejection_code(pattern@),
{
    onig::Regex::new(pattern)
}

/// Relies on `onig::Region::new`: a freshly made region holds no captures.
#[verifier::external_body]
pub(crate) fn region_new() -> (r: onig::Region)
    ensures
        region_table(r).len() == 0,
{
    onig::Region::new()
}

/// Relies on `onig::Region::len`: the number of entries in the capture table.
#[verifier::external_body]
pub(crate) fn region_len(r: &onig::Region) -> (n: usize)
    ensures
        n == region_table(*r).len(),
{
    r.len()
}

/// Relies on `onig::Region::pos`: the byte span of capture `i`, `None`
/// when `i` is out of range or group `i` took no part in the match.
#[verifier::external_body]
pub(crate) fn region_pos(r: &onig::Region, i: usize) -> (p: Option<(usize, usize)>)
    ensures
        p == (if i < region_table(*r).len() {
            region_table(*r)[i as int]
        } else {
            None::<(usize, usize)>
        }),
{
    r.pos(i)
}

/// Relies on `onig::Region::clone`: a deep copy through the engine's
/// region-copy primitive, an independent allocation holding the same
/// capture table.
#[verifier::external_body]
pub(crate) fn region_clone(r: &onig::Region) -> (c: onig::Region)
    ensures
        region_table(c) == region_table(*r),
{
    r.clone()
}

/// Relies on `onig::Regex::search_with_param`, applied to the whole
/// haystack.  The result follows [`search_status`] and nothing else:
/// a nonnegative status is returned as `Ok(Some(status))` with the
/// region filled — at least the whole-match entry, present, all spans
/// ordered byte offsets into the haystack (nothing relates entry 0's
/// start to the returned offset: the keep operator can move the match
/// start to either side of it); the mismatch status `-1`, and only it,
/// is `Ok(None)`; any other negative status comes back as `Err`.  The
/// engine interface carries offsets as C `int`, so the haystack must
/// fit in one.
#[verifier::external_body]
pub(crate) fn search_native(reg: &onig::Regex, haystack: &str, region: &mut onig::Region) -> (r:
    Result<Option<usize>, onig::Error>)
    requires
        haystack.spec_bytes().len() <= i32::MAX,
    ensures
        match r {
            Ok(opt) => match opt {
                Some(pos) => {
                    &&& search_status(pattern_text(*reg), haystack.spec_bytes()) == pos
                    &&& region_table(*final(region)).len() >= 1
                    &&& region_table(*final(region))[0] is Some
                    &&& spans_within(region_table(*final(region)), haystack.spec_bytes().len())
                },
                None => search_status(pattern_text(*reg), haystack.spec_bytes()) == -1,
            },
            Err(_) => search_status(pattern_text(*reg), haystack.spec_bytes()) < -1,
        },
{
    reg.search_with_param(
        haystack,
        0,
        haystack.len(),
        onig::SearchOptions::SEARCH_OPTION_NONE,
        Some(region),
        onig::MatchParam::default(),
    )
}

/// Relies on `onig::Error::code`: the status code the error value
/// carries (a fixed stand-in code where the error was synthesized by
/// the binding itself).
#[verifier::external_body]
pub(crate) fn error_code(e: &onig::Error) -> (c: i32)
    ensures
        c == code_of(*e),
{
    e.code()
}

/// Relies on `onig::Error::description`: the message text the engine's
/// error formatter decoded for this status.
#[verifier::external_body]
pub(crate) fn error_message(e: &onig::Error) -> String {
    e.description().to_owned()
}

} // verus!
