//! Where the Pagila fixture directory is: `data/pagila` relative to the working
//! directory when the customer file is there, else two levels above the crate
//! directory.

use vstd::prelude::*;

verus! {

/// The file whose presence shows that the fixtures lie under the working directory.
pub const CWD_PROBE: &'static str = "data/pagila/customer.parquet";

/// The fixture directory relative to the working directory.
pub const CWD_ROOT: &'static str = "data/pagila";

/// The text of `Path::new(base).join(component)` on Unix: a component that
/// starts with `/` replaces the base; otherwise it is appended, with a `/` in
/// between unless the base is empty or already ends with one.
pub open spec fn joined(base: Seq<char>, component: Seq<char>) -> Seq<char> {
    if component.len() > 0 && component[0] == '/' {
        component
    } else if base.len() == 0 || base.last() == '/' {
        base + component
    } else {
        base + seq!['/'] + component
    }
}

/// `<manifest_dir>/../../data/pagila`, built by path joins.
pub open spec fn fallback_root(manifest_dir: Seq<char>) -> Seq<char> {
    joined(joined(joined(joined(manifest_dir, ".."@), ".."@), "data"@), "pagila"@)
}

/// `std::path::Path::exists` on `p`: whether something is at that path on disk.
/// What it returns depends on the file system at the moment of the call, so no
/// clause is stated of it.
#[verifier::external_body]
fn path_exists(p: &str) -> bool {
    std::path::Path::new(p).exists()
}

/// Joins `component` onto `base` as `Path::join` does on Unix, as text.
pub fn path_join(base: &str, component: &str) -> (r: String)
    ensures
        r@ == joined(base@, component@),
{
    proof {
        reveal_strlit("/");
    }
    let clen = component.unicode_len();
    if clen > 0 && component.get_char(0) == '/' {
        return String::from_str(component);
    }
    let blen = base.unicode_len();
    let mut r = String::from_str(base);
    if blen > 0 && base.get_char(blen - 1) != '/' {
        r.append("/");
    }
    r.append(component);
    r
}

/// Picks the fixture directory: `data/pagila` when `is_present` reports the
/// customer file under the working directory, else
/// `<manifest_dir>/../../data/pagila`.
pub fn resolve_pagila_root(manifest_dir: &str, is_present: impl Fn(&str) -> bool) -> (r: String)
    requires
        call_requires(is_present, (CWD_PROBE,)),
    ensures
        exists|found: bool|
            #![trigger call_ensures(is_present, (CWD_PROBE,), found)]
            call_ensures(is_present, (CWD_PROBE,), found) && r@ == (if found {
                CWD_ROOT@
            } else {
                fallback_root(manifest_dir@)
            }),
{
    if is_present(CWD_PROBE) {
        return String::from_str(CWD_ROOT);
    }
    let up = path_join(manifest_dir, "..");
    let up2 = path_join(up.as_str(), "..");
    let data = path_join(up2.as_str(), "data");
    path_join(data.as_str(), "pagila")
}

/// The fixture directory for a crate at `manifest_dir`, chosen by looking at
/// the file system: `data/pagila` when the customer file is there, else
/// `<manifest_dir>/../../data/pagila`. The file looked for is
/// `data/pagila/customer.parquet`, and the answer of that one look decides.
pub fn pagila_root(manifest_dir: &str) -> (r: String)
    ensures
        exists|found: bool|
            #![trigger probe_answer(found)]
            probe_answer(found) && r@ == (if found {
                CWD_ROOT@
            } else {
                fallback_root(manifest_dir@)
            }),
        r@ == CWD_ROOT@ || r@ == fallback_root(manifest_dir@),
{
    let r = resolve_pagila_root(manifest_dir, path_exists);
    proof {
        let found = choose|f: bool|
            #![trigger call_ensures(path_exists, (CWD_PROBE,), f)]
            call_ensures(path_exists, (CWD_PROBE,), f) && r@ == (if f {
                CWD_ROOT@
            } else {
                fallback_root(manifest_dir@)
            });
        assert(probe_answer(found));
    }
    r
}

/// `found` is an answer that `Path::exists` gave for the customer file
/// `data/pagila/customer.parquet` under the working directory.
pub closed spec fn probe_answer(found: bool) -> bool {
    call_ensures(path_exists, (CWD_PROBE,), found)
}

/// The fallback directory starts with the crate directory and ends with `data/pagila`.
pub proof fn lemma_fallback_shape(manifest_dir: Seq<char>)
    ensures
        manifest_dir.is_prefix_of(fallback_root(manifest_dir)),
        CWD_ROOT@.len() <= fallback_root(manifest_dir).len(),
        fallback_root(manifest_dir).subrange(
            fallback_root(manifest_dir).len() - CWD_ROOT@.len(),
            fallback_root(manifest_dir).len() as int,
        ) == CWD_ROOT@,
{
    reveal_strlit("..");
    reveal_strlit("data");
    reveal_strlit("pagila");
    reveal_strlit("data/pagila");
    let up = joined(manifest_dir, ".."@);
    let up2 = joined(up, ".."@);
    let data = joined(up2, "data"@);
    let all = joined(data, "pagila"@);
    assert(manifest_dir.is_prefix_of(up));
    assert(up.is_prefix_of(up2));
    assert(up2.is_prefix_of(data));
    assert(data.len() > 0 && data.last() == 'a');
    assert(all == data + seq!['/'] + "pagila"@);
    assert(data.is_prefix_of(all));
    assert(manifest_dir.is_prefix_of(all));
    let n = all.len();
    assert(all.subrange(n - 11, n as int) =~= CWD_ROOT@);
}

} // verus!
