use vstd::prelude::*;
use vstd::string::*;
use vstd::utf8::encode_utf8;

use crate::contract::{join_path, joined};
use crate::json::{as_text, field, lookup, Json};
use crate::paths::views;
use crate::text::{blank, is_blank, text_eq, trim, trimmed};

verus! {

/// The runtime settings as a caller is shown them.
#[derive(Debug, Clone, PartialEq, Eq)]
pub struct RuntimeEnvConfig {
    pub config_path: String,
    pub install_base_dir: String,
    pub python_exe: String,
    pub cache_dir: String,
    pub deps_state_path: String,
    pub installed_layers: Vec<String>,
    pub failed_layers: Vec<String>,
}

/// A request to set the install directory.
#[derive(Debug, Clone, PartialEq, Eq)]
pub struct SetRuntimeEnvConfigInput {
    pub install_base_dir: String,
}

/// A request to start the dependency wizard.
#[derive(Debug, Clone, PartialEq, Eq)]
pub struct LaunchDependencyWizardInput {
    pub install_base_dir: Option<String>,
    pub python_exe: Option<String>,
}

/// The started dependency wizard.
#[derive(Debug, Clone, PartialEq, Eq)]
pub struct LaunchDependencyWizardResult {
    pub ok: bool,
    pub pid: u32,
    pub message: String,
}

/// Byte-wise lexicographic order, a proper prefix first.
pub open spec fn bytes_le(a: Seq<u8>, b: Seq<u8>) -> bool
    decreases a.len(),
{
    if a.len() == 0 {
        true
    } else if b.len() == 0 {
        false
    } else if a[0] != b[0] {
        a[0] < b[0]
    } else {
        bytes_le(a.drop_first(), b.drop_first())
    }
}

/// The order of `String`: their UTF-8 bytes, compared lexicographically.
pub open spec fn text_le(a: Seq<char>, b: Seq<char>) -> bool {
    bytes_le(encode_utf8(a), encode_utf8(b))
}

/// Relies on `slice::sort` under `String`'s `Ord`, which compares the UTF-8
/// bytes lexicographically: the same texts come back in ascending order.
#[verifier::external_body]
fn sort_texts(v: &mut Vec<String>)
    ensures
        views(final(v)@).to_multiset() == views(old(v)@).to_multiset(),
        forall|i: int, j: int|
            0 <= i < j < final(v)@.len() ==> text_le(#[trigger] final(v)@[i]@, #[trigger] final(v)@[j]@),
{
    v.sort();
}

/// Layer names compare in upper case.
pub uninterp spec fn upper_of(s: Seq<char>) -> Seq<char>;

/// Relies on `str::to_uppercase`: the result depends on the characters alone.
#[verifier::external_body]
fn uppercase(s: &str) -> (r: String)
    ensures
        r@ == upper_of(s@),
{
    s.to_uppercase()
}

/// The file that holds the runtime settings, below the home directory.
pub fn runtime_config_path(home: &str) -> (r: String)
    ensures
        r@ == joined(home@, ".latexsnipper/LaTeXSnipper_config.json"@),
{
    join_path(home, ".latexsnipper/LaTeXSnipper_config.json")
}

/// The home directory: `USERPROFILE`, then `HOME` (each trimmed, where it
/// exists), then the working directory.
pub fn user_home_dir(
    userprofile: Option<&str>,
    userprofile_exists: bool,
    home: Option<&str>,
    home_exists: bool,
    cwd: &str,
) -> (r: String)
    ensures
        userprofile is Some && userprofile_exists ==> r@ == trimmed(userprofile->0@),
        !(userprofile is Some && userprofile_exists) && home is Some && home_exists ==> r@
            == trimmed(home->0@),
        !(userprofile is Some && userprofile_exists) && !(home is Some && home_exists) ==> r@
            == cwd@,
{
    if let Some(p) = userprofile {
        if userprofile_exists {
            return trim(p).to_owned();
        }
    }
    if let Some(h) = home {
        if home_exists {
            return trim(h).to_owned();
        }
    }
    cwd.to_owned()
}

/// The install directory that a settings document names, trimmed.
pub open spec fn configured_base_dir(doc: Json) -> Option<Seq<char>> {
    match as_text(field(doc, "install_base_dir"@)) {
        Some(t) => if blank(t) {
            None
        } else {
            Some(trimmed(t))
        },
        None => None,
    }
}

/// Reads `install_base_dir` from a settings document; a blank one counts as
/// none.
pub fn install_base_dir_from_config(doc: &Json) -> (r: Option<String>)
    ensures
        match r {
            Some(s) => configured_base_dir(*doc) == Some(s@),
            None => configured_base_dir(*doc) is None,
        },
{
    match doc.get("install_base_dir") {
        Some(Json::Str(s)) => {
            if is_blank(s.as_str()) {
                None
            } else {
                Some(trim(s.as_str()).to_owned())
            }
        },
        _ => None,
    }
}

/// The configured install directory, else `src/deps` below the worker's
/// directory.
pub fn resolve_install_base_dir(configured: Option<String>, repo_root: &str) -> (r: String)
    ensures
        configured is Some ==> r == configured->0,
        configured is None ==> r@ == joined(repo_root@, "src/deps"@),
{
    match configured {
        Some(p) => p,
        None => join_path(repo_root, "src/deps"),
    }
}

/// The install directory the dependency wizard uses: the trimmed explicit
/// one unless it is blank, else `fallback`.
pub fn choose_install_base_dir(explicit: Option<&str>, fallback: String) -> (r: String)
    ensures
        explicit is Some && !blank(explicit->0@) ==> r@ == trimmed(explicit->0@),
        !(explicit is Some && !blank(explicit->0@)) ==> r == fallback,
{
    if let Some(e) = explicit {
        if !is_blank(e) {
            return trim(e).to_owned();
        }
    }
    fallback
}

/// The model cache: `pix2text` below `APPDATA` (trimmed), else below
/// `.cache` in the home directory.
pub fn runtime_cache_dir(appdata: Option<&str>, home: &str) -> (r: String)
    ensures
        appdata is Some ==> r@ == joined(trimmed(appdata->0@), "pix2text"@),
        appdata is None ==> r@ == joined(home@, ".cache/pix2text"@),
{
    match appdata {
        Some(a) => join_path(trim(a), "pix2text"),
        None => join_path(home, ".cache/pix2text"),
    }
}

proof fn lemma_lookup_push(m: Seq<(String, Json)>, x: (String, Json), k: Seq<char>)
    ensures
        lookup(m.push(x), k) == (if lookup(m, k) is Some {
            lookup(m, k)
        } else if x.0@ == k {
            Some(x.1)
        } else {
            None
        }),
    decreases m.len(),
{
    if m.len() > 0 {
        assert(m.push(x)[0] == m[0]);
        assert(m.push(x).drop_first() =~= m.drop_first().push(x));
        lemma_lookup_push(m.drop_first(), x, k);
    } else {
        assert(m.push(x)[0] == x);
        assert(m.push(x).drop_first() =~= Seq::<(String, Json)>::empty());
        assert(lookup(Seq::<(String, Json)>::empty(), k) is None);
    }
}

proof fn lemma_lookup_update(m: Seq<(String, Json)>, i: int, x: (String, Json), k: Seq<char>)
    requires
        0 <= i < m.len(),
        m[i].0@ == x.0@,
        forall|j: int| 0 <= j < i ==> m[j].0@ != x.0@,
    ensures
        k != x.0@ ==> lookup(m.update(i, x), k) == lookup(m, k),
        k == x.0@ ==> lookup(m.update(i, x), k) == Some(x.1),
    decreases m.len(),
{
    if i > 0 {
        assert(m.update(i, x)[0] == m[0]);
        assert(m.update(i, x).drop_first() =~= m.drop_first().update(i - 1, x));
        lemma_lookup_update(m.drop_first(), i - 1, x, k);
    } else {
        assert(m.update(0, x)[0] == x);
        assert(m.update(0, x).drop_first() =~= m.drop_first());
    }
}

/// The settings document with `install_base_dir` set to `dir`; any other
/// member stays. A document that is no object is replaced by one.
pub fn with_install_base_dir(doc: Json, dir: &str) -> (r: Json)
    ensures
        r is Object,
        as_text(field(r, "install_base_dir"@)) == Some(dir@),
        doc is Object ==> forall|k: Seq<char>|
            k != "install_base_dir"@ ==> #[trigger] field(r, k) == field(doc, k),
        !(doc is Object) ==> (r matches Json::Object(m) && m@.len() == 1),
{
    let member = ("install_base_dir".to_owned(), Json::Str(dir.to_owned()));
    match doc {
        Json::Object(mut members) => {
            let ghost old_members = members@;
            let mut i: usize = 0;
            while i < members.len()
                invariant
                    members@ == old_members,
                    i <= members@.len(),
                    forall|j: int| 0 <= j < i ==> members@[j].0@ != "install_base_dir"@,
                ensures
                    i < members@.len() ==> members@[i as int].0@ == "install_base_dir"@,
                decreases members@.len() - i,
            {
                if text_eq(members[i].0.as_str(), "install_base_dir") {
                    break;
                }
                i = i + 1;
            }
            if i < members.len() {
                proof {
                    assert forall|k: Seq<char>| true implies (k != "install_base_dir"@ ==> lookup(
                        old_members.update(i as int, member),
                        k,
                    ) == lookup(old_members, k)) && (k == "install_base_dir"@ ==> lookup(
                        old_members.update(i as int, member),
                        k,
                    ) == Some(member.1)) by {
                        lemma_lookup_update(old_members, i as int, member, k);
                    }
                }
                members.set(i, member);
            } else {
                proof {
                    assert forall|k: Seq<char>| true implies lookup(old_members.push(member), k) == (
                    if lookup(old_members, k) is Some {
                        lookup(old_members, k)
                    } else if member.0@ == k {
                        Some(member.1)
                    } else {
                        None
                    }) by {
                        lemma_lookup_push(old_members, member, k);
                    }
                    assert(lookup(old_members, "install_base_dir"@) is None) by {
                        lemma_lookup_absent(old_members, "install_base_dir"@);
                    }
                }
                members.push(member);
            }
            Json::Object(members)
        },
        _ => {
            let members = vec![member];
            proof {
                assert(members@.drop_first() =~= Seq::<(String, Json)>::empty());
            }
            Json::Object(members)
        },
    }
}

proof fn lemma_lookup_absent(m: Seq<(String, Json)>, k: Seq<char>)
    requires
        forall|j: int| 0 <= j < m.len() ==> m[j].0@ != k,
    ensures
        lookup(m, k) is None,
    decreases m.len(),
{
    if m.len() > 0 {
        lemma_lookup_absent(m.drop_first(), k);
    }
}

/// The upper-case, trimmed, non-empty layer names among the string items.
pub open spec fn layer_names(items: Seq<Json>) -> Seq<Seq<char>>
    decreases items.len(),
{
    if items.len() == 0 {
        Seq::empty()
    } else {
        let rest = layer_names(items.drop_last());
        match items.last() {
            Json::Str(s) => if upper_of(trimmed(s@)).len() > 0 {
                rest.push(upper_of(trimmed(s@)))
            } else {
                rest
            },
            _ => rest,
        }
    }
}

/// The items of the array member `key`, or none.
pub open spec fn array_items(doc: Json, key: Seq<char>) -> Seq<Json> {
    match field(doc, key) {
        Some(Json::Array(items)) => items@,
        _ => Seq::empty(),
    }
}

/// Ascending under [`text_le`], with no two neighbours equal.
pub open spec fn sorted_distinct(s: Seq<Seq<char>>) -> bool {
    forall|i: int| 0 <= i < s.len() - 1 ==> text_le(#[trigger] s[i], s[i + 1]) && s[i] != s[i + 1]
}

/// The layer names listed under `key`, sorted, each once.
pub fn layer_list(doc: &Json, key: &str) -> (r: Vec<String>)
    ensures
        views(r@).to_set() == layer_names(array_items(*doc, key@)).to_set(),
        sorted_distinct(views(r@)),
{
    let mut names: Vec<String> = Vec::new();
    if let Some(Json::Array(items)) = doc.get(key) {
        let mut i: usize = 0;
        while i < items.len()
            invariant
                i <= items@.len(),
                items@ == array_items(*doc, key@),
                views(names@) == layer_names(items@.subrange(0, i as int)),
            decreases items@.len() - i,
        {
            let ghost pre = items@.subrange(0, i as int);
            assert(items@.subrange(0, i + 1).drop_last() =~= pre);
            if let Json::Str(s) = &items[i] {
                let u = uppercase(trim(s.as_str()));
                if u.as_str().unicode_len() > 0 {
                    names.push(u);
                    assert(views(names@) =~= layer_names(pre).push(upper_of(trimmed(s@))));
                }
            }
            i = i + 1;
        }
        assert(items@.subrange(0, items@.len() as int) =~= items@);
    } else {
        assert(views(names@) =~= layer_names(array_items(*doc, key@)));
    }
    let ghost unsorted = views(names@);
    sort_texts(&mut names);
    let ghost sorted = views(names@);
    let mut out: Vec<String> = Vec::new();
    let mut i: usize = 0;
    while i < names.len()
        invariant
            i <= names@.len(),
            sorted == views(names@),
            forall|a: int, b: int|
                0 <= a < b < sorted.len() ==> text_le(#[trigger] sorted[a], #[trigger] sorted[b]),
            views(out@).to_set() == sorted.subrange(0, i as int).to_set(),
            sorted_distinct(views(out@)),
            i > 0 ==> out@.len() > 0 && views(out@).last() == sorted[i - 1],
            i == 0 ==> out@.len() == 0,
        decreases names@.len() - i,
    {
        let ghost before = views(out@);
        let fresh = if out.len() == 0 {
            true
        } else {
            !text_eq(out[out.len() - 1].as_str(), names[i].as_str())
        };
        if fresh {
            out.push(names[i].clone());
            proof {
                assert(views(out@) =~= before.push(sorted[i as int]));
                if i > 0 {
                    assert(text_le(sorted[i - 1], sorted[i as int]));
                }
            }
        }
        proof {
            let pre = sorted.subrange(0, i as int);
            assert(sorted.subrange(0, i + 1) =~= pre.push(sorted[i as int]));
            pre.lemma_push_to_set_commute(sorted[i as int]);
            if fresh {
                before.lemma_push_to_set_commute(sorted[i as int]);
            } else {
                assert(before.contains(sorted[i as int])) by {
                    assert(before[before.len() - 1] == sorted[i as int]);
                }
                assert(before.to_set().contains(sorted[i as int]));
                assert(views(out@).to_set() =~= before.to_set().insert(sorted[i as int]));
            }
        }
        i = i + 1;
    }
    proof {
        assert(sorted.subrange(0, names@.len() as int) =~= sorted);
        assert forall|x: Seq<char>| sorted.contains(x) <==> unsorted.contains(x) by {
            vstd::seq_lib::to_multiset_contains(sorted, x);
            vstd::seq_lib::to_multiset_contains(unsorted, x);
        }
        assert(sorted.to_set() =~= unsorted.to_set());
    }
    out
}

/// The installed and the failed layers of a dependency-state document; with
/// no readable document, none of either.
pub fn read_deps_state_layers(doc: Option<&Json>) -> (r: (Vec<String>, Vec<String>))
    ensures
        doc is None ==> r.0@.len() == 0 && r.1@.len() == 0,
        doc is Some ==> views(r.0@).to_set() == layer_names(
            array_items(*doc->0, "installed_layers"@),
        ).to_set() && sorted_distinct(views(r.0@)),
        doc is Some ==> views(r.1@).to_set() == layer_names(
            array_items(*doc->0, "failed_layers"@),
        ).to_set() && sorted_distinct(views(r.1@)),
{
    match doc {
        Some(d) => (layer_list(d, "installed_layers"), layer_list(d, "failed_layers")),
        None => (Vec::new(), Vec::new()),
    }
}

} // verus!
