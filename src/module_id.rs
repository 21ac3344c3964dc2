use vstd::prelude::*;

verus! {

/// The marker that every synthetic runtime module id carries at its end.
pub const RUNTIME_SUFFIX: &'static str = ".farm-runtime";

/// The marker as a sequence of characters.
pub open spec fn runtime_suffix() -> Seq<char> {
    seq!['.', 'f', 'a', 'r', 'm', '-', 'r', 'u', 'n', 't', 'i', 'm', 'e']
}

/// Whether `s` ends with the runtime marker.
pub open spec fn has_runtime_suffix(s: Seq<char>) -> bool {
    s.len() >= runtime_suffix().len() && s.subrange(s.len() - runtime_suffix().len(), s.len() as int) == runtime_suffix()
}

/// Tells whether `s` ends with the runtime marker.
pub fn ends_with_runtime_suffix(s: &str) -> (r: bool)
    ensures
        r == has_runtime_suffix(s@),
{
    proof { reveal_strlit(".farm-runtime"); }
    let suffix = RUNTIME_SUFFIX;
    let n = s.unicode_len();
    let m = suffix.unicode_len();
    assert(suffix@ == runtime_suffix());
    if n < m {
        return false;
    }
    let mut i: usize = 0;
    while i < m
        invariant
            i <= m,
            m == runtime_suffix().len(),
            n == s@.len(),
            n >= m,
            suffix@ == runtime_suffix(),
            forall|k: int| 0 <= k < i ==> s@[n - m + k] == runtime_suffix()[k],
        decreases m - i,
    {
        if s.get_char(n - m + i) != suffix.get_char(i) {
            assert(s@.subrange(n - m, n as int)[i as int] != runtime_suffix()[i as int]);
            return false;
        }
        i = i + 1;
    }
    assert(s@.subrange(n - m, n as int) =~= runtime_suffix());
    true
}

} // verus!

verus! {

/// `s` with the runtime marker taken off its end, when it carries one.
pub open spec fn without_runtime_suffix(s: Seq<char>) -> Seq<char> {
    if has_runtime_suffix(s) {
        s.subrange(0, s.len() - runtime_suffix().len())
    } else {
        s
    }
}

/// Removes the runtime marker from the end of `s`; other strings come back unchanged.
pub fn strip_runtime_suffix(s: &str) -> (r: String)
    ensures
        r@ == without_runtime_suffix(s@),
{
    if ends_with_runtime_suffix(s) {
        proof { reveal_strlit(".farm-runtime"); }
        let n = s.unicode_len();
        let m = RUNTIME_SUFFIX.unicode_len();
        String::from_str(s.substring_char(0, n - m))
    } else {
        String::from_str(s)
    }
}

/// Appends the runtime marker to `s`.
pub fn add_runtime_suffix(s: &str) -> (r: String)
    ensures
        r@ == s@ + runtime_suffix(),
{
    proof { reveal_strlit(".farm-runtime"); }
    String::from_str(s).concat(RUNTIME_SUFFIX)
}

/// A marked sequence always carries the marker, and taking it off gives back what it was added to.
pub proof fn lemma_suffix_added_then_stripped(p: Seq<char>)
    ensures
        has_runtime_suffix(p + runtime_suffix()),
        without_runtime_suffix(p + runtime_suffix()) == p,
{
    let s = p + runtime_suffix();
    assert(s.subrange(s.len() - runtime_suffix().len(), s.len() as int) =~= runtime_suffix());
    assert(s.subrange(0, s.len() - runtime_suffix().len()) =~= p);
}

/// A module id, told apart by whether it names a synthetic runtime module.
pub enum ModuleIdKind {
    /// An ordinary module, by its path.
    Real(String),
    /// A runtime module, by the real path under the marker.
    Runtime(String),
}

/// Classifies `id`: a marked id becomes `Runtime` of the real path below it.
pub fn classify_module_id(id: &str) -> (r: ModuleIdKind)
    ensures
        has_runtime_suffix(id@) ==> (r matches ModuleIdKind::Runtime(p) && p@ == without_runtime_suffix(id@)),
        !has_runtime_suffix(id@) ==> (r matches ModuleIdKind::Real(p) && p@ == id@),
{
    if ends_with_runtime_suffix(id) {
        ModuleIdKind::Runtime(strip_runtime_suffix(id))
    } else {
        ModuleIdKind::Real(String::from_str(id))
    }
}

} // verus!
