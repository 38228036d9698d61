//! Choice of the repository path that the sidecar works on.
use vstd::prelude::*;

verus! {

/// What `str::trim` leaves of `s`.
pub uninterp spec fn trimmed(s: Seq<char>) -> Seq<char>;

/// Whether `part` is a run of consecutive characters of `whole`.
pub open spec fn is_contiguous_part(part: Seq<char>, whole: Seq<char>) -> bool {
    exists|i: int, j: int| 0 <= i <= j <= whole.len() && part == whole.subrange(i, j)
}

/// Relies on `str::trim`: the text without its leading and trailing white
/// space; it depends on the text alone, and is a contiguous part of it.
#[verifier::external_body]
fn trim_text(s: &str) -> (r: String)
    ensures
        r@ == trimmed(s@),
        is_contiguous_part(r@, s@),
{
    s.trim().to_string()
}

/// Whether a source gave a non-empty path.
pub open spec fn is_given(o: Option<Seq<char>>) -> bool {
    o is Some && o->0.len() > 0
}

/// The first non-empty of the override, the marker file's contents and the
/// working directory; `None` when all three are absent or empty.
pub open spec fn chosen_repo_path(
    override_value: Option<Seq<char>>,
    marker: Option<Seq<char>>,
    cwd: Option<Seq<char>>,
) -> Option<Seq<char>> {
    if is_given(override_value) {
        override_value
    } else if is_given(marker) {
        marker
    } else if is_given(cwd) {
        cwd
    } else {
        None
    }
}

pub open spec fn view_of(s: Option<String>) -> Option<Seq<char>> {
    match s {
        Some(v) => Some(v@),
        None => None,
    }
}

pub open spec fn trimmed_view(s: Option<String>) -> Option<Seq<char>> {
    match s {
        Some(v) => Some(trimmed(v@)),
        None => None,
    }
}

fn non_empty(s: Option<String>) -> (r: Option<String>)
    ensures
        r is Some <==> (s is Some && s->0@.len() > 0),
        r is Some ==> r == s,
{
    match s {
        Some(v) => {
            if v.as_str().is_empty() {
                None
            } else {
                Some(v)
            }
        },
        None => None,
    }
}

/// Picks the repository path from already trimmed marker contents: the
/// override when non-empty, else the marker when non-empty, else the
/// working directory when known and non-empty. `None` aborts startup.
pub fn choose_repo_path(
    override_value: Option<String>,
    marker: Option<String>,
    cwd: Option<String>,
) -> (r: Option<String>)
    ensures
        view_of(r) == chosen_repo_path(view_of(override_value), view_of(marker), view_of(cwd)),
        r is Some ==> r->0@.len() > 0,
{
    if let Some(v) = non_empty(override_value) {
        return Some(v);
    }
    if let Some(m) = non_empty(marker) {
        return Some(m);
    }
    non_empty(cwd)
}

/// Resolves the repository path from the override in the environment, the
/// raw contents of the path marker file (trimmed here) and the working
/// directory, in that order of precedence.
pub fn get_repo_path(
    override_value: Option<String>,
    marker_contents: Option<String>,
    cwd: Option<String>,
) -> (r: Option<String>)
    ensures
        view_of(r) == chosen_repo_path(
            view_of(override_value),
            trimmed_view(marker_contents),
            view_of(cwd),
        ),
        r is Some ==> r->0@.len() > 0,
{
    let marker = match marker_contents {
        Some(m) => Some(trim_text(m.as_str())),
        None => None,
    };
    choose_repo_path(override_value, marker, cwd)
}

/// The fallback order, case by case: a non-empty override wins; else
/// non-empty marker contents; else a non-empty working directory; else no
/// path at all. A path that is chosen is never empty.
pub proof fn lemma_path_fallback_order(
    override_value: Option<Seq<char>>,
    marker: Option<Seq<char>>,
    cwd: Option<Seq<char>>,
)
    ensures
        ({
            let r = chosen_repo_path(override_value, marker, cwd);
            &&& is_given(override_value) ==> r == override_value
            &&& !is_given(override_value) && is_given(marker) ==> r == marker
            &&& !is_given(override_value) && !is_given(marker) && is_given(cwd) ==> r == cwd
            &&& !is_given(override_value) && !is_given(marker) && !is_given(cwd) ==> r is None
            &&& r is Some ==> r->0.len() > 0
        }),
{
}

} // verus!
