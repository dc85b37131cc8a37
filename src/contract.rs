use vstd::prelude::*;
use vstd::string::*;

use crate::json::{field, Json, JsonV};
use crate::paths::{any_hit, copy_texts, first_existing, is_first_hit, views};
use crate::wire::{is_json_document, parse_json};
use crate::text::{blank, concat, is_blank, text_eq, trim, trimmed};

verus! {

/// Enumerations that a contract declares.
#[derive(Debug, Clone, PartialEq, Eq)]
pub struct RpcEnums {
    pub methods: Vec<String>,
    pub task_kinds: Vec<String>,
    pub task_status: Vec<String>,
    pub task_terminal_status: Vec<String>,
}

/// The shape of one method: its parameters and the fields of an ok reply.
#[derive(Debug, Clone, PartialEq, Eq)]
pub struct MethodSpec {
    pub params_required: Vec<String>,
    pub params_optional: Vec<String>,
    pub response_ok_fields: Vec<String>,
}

/// A versioned description of what the daemon offers.
///
/// `methods` pairs each method name with its shape.
#[derive(Debug, PartialEq, Eq)]
pub struct RpcContract {
    pub name: String,
    pub version: String,
    pub transport: Json,
    pub auth: Json,
    pub enums: RpcEnums,
    pub methods: Vec<(String, MethodSpec)>,
}

/// The file name of the contract at each conventional location.
pub const DEFAULT_CONTRACT_FILE: &'static str = "daemon_rpc_contract.v1.json";

/// The environment variable that names a contract file.
pub const CONTRACT_PATH_ENV: &'static str = "LATEXSNIPPER_RPC_CONTRACT";

/// What finding or loading a contract can fail with.
#[derive(Debug, Clone, PartialEq, Eq)]
pub enum ContractError {
    /// No contract file: the explicit path where one was given.
    NotFound(Option<String>),
    /// The file is not a contract document.
    ParseError(String),
    /// The contract's name or version is blank.
    InvalidContract,
}

/// What a caller is shown of a loaded contract.
#[derive(Debug, Clone, PartialEq, Eq)]
pub struct ContractSummary {
    pub path: String,
    pub name: String,
    pub version: String,
    pub methods: Vec<String>,
    pub task_kinds: Vec<String>,
}

impl RpcContract {
    /// A usable contract names itself and its version.
    pub open spec fn wf(&self) -> bool {
        !blank(self.name@) && !blank(self.version@)
    }
}

/// `dir` followed by `/rel`.
pub open spec fn joined(dir: Seq<char>, rel: Seq<char>) -> Seq<char> {
    dir + "/"@ + rel
}

pub fn join_path(dir: &str, rel: &str) -> (r: String)
    ensures
        r@ == joined(dir@, rel@),
{
    let d = concat(dir, "/");
    concat(d.as_str(), rel)
}

/// The conventional contract locations below a directory and up to `levels`
/// parents of it, nearest first.
pub open spec fn contract_locations(dir: Seq<char>, levels: nat) -> Seq<Seq<char>> {
    let all = seq![
        joined(dir, "contracts/daemon_rpc_contract.v1.json"@),
        joined(dir, "../contracts/daemon_rpc_contract.v1.json"@),
        joined(dir, "../../contracts/daemon_rpc_contract.v1.json"@),
        joined(dir, "../../../contracts/daemon_rpc_contract.v1.json"@),
    ];
    all.subrange(0, levels as int + 1)
}

/// The candidate list before duplicates are dropped: the environment
/// override, then the working directory and three of its parents, then the
/// executable's directory and two of its parents.
pub open spec fn raw_candidates(
    env_override: Option<Seq<char>>,
    cwd: Seq<char>,
    exe_dir: Option<Seq<char>>,
) -> Seq<Seq<char>> {
    let from_env = match env_override {
        Some(e) => if blank(e) {
            Seq::empty()
        } else {
            seq![trimmed(e)]
        },
        None => Seq::empty(),
    };
    let from_exe = match exe_dir {
        Some(d) => contract_locations(d, 2),
        None => Seq::empty(),
    };
    from_env + contract_locations(cwd, 3) + from_exe
}

/// Paths compare without regard to case.
pub uninterp spec fn lower_of(s: Seq<char>) -> Seq<char>;

/// Relies on `str::to_lowercase`: the result depends on the characters alone.
#[verifier::external_body]
fn lowercase(s: &str) -> (r: String)
    ensures
        r@ == lower_of(s@),
{
    s.to_lowercase()
}

/// Whether some path before position `i` has the same lowercase form as the
/// one at `i`.
pub open spec fn seen_before(s: Seq<Seq<char>>, i: int) -> bool {
    exists|j: int| 0 <= j < i && lower_of(s[j]) == lower_of(s[i])
}

/// `s` with every path dropped whose lowercase form came earlier.
pub open spec fn dedup_keys(s: Seq<Seq<char>>) -> Seq<Seq<char>>
    decreases s.len(),
{
    if s.len() == 0 {
        s
    } else {
        let rest = dedup_keys(s.drop_last());
        if seen_before(s, s.len() - 1) {
            rest
        } else {
            rest.push(s.last())
        }
    }
}

/// Keeps the first of the paths that are equal without regard to case.
pub fn dedup_paths(input: Vec<String>) -> (r: Vec<String>)
    ensures
        views(r@) == dedup_keys(views(input@)),
{
    let ghost s = views(input@);
    let mut out: Vec<String> = Vec::new();
    let mut keys: Vec<String> = Vec::new();
    let mut i: usize = 0;
    while i < input.len()
        invariant
            s == views(input@),
            i <= input@.len(),
            keys@.len() == i,
            forall|j: int| 0 <= j < i ==> keys@[j]@ == lower_of(s[j]),
            views(out@) == dedup_keys(s.subrange(0, i as int)),
        decreases input@.len() - i,
    {
        let key = lowercase(input[i].as_str());
        let mut k: usize = 0;
        let mut seen = false;
        while k < keys.len() && !seen
            invariant
                s == views(input@),
                i < input@.len(),
                keys@.len() == i,
                k <= i,
                key@ == lower_of(s[i as int]),
                forall|j: int| 0 <= j < i ==> keys@[j]@ == lower_of(s[j]),
                seen ==> exists|j: int| 0 <= j < i && lower_of(s[j]) == lower_of(s[i as int]),
                !seen ==> forall|j: int| 0 <= j < k ==> lower_of(s[j]) != lower_of(s[i as int]),
            decreases i - k + (if seen { 0int } else { 1int }),
        {
            if text_eq(keys[k].as_str(), key.as_str()) {
                assert(lower_of(s[k as int]) == lower_of(s[i as int]));
                seen = true;
            } else {
                k = k + 1;
            }
        }
        let ghost prefix = s.subrange(0, i as int + 1);
        assert(prefix.drop_last() =~= s.subrange(0, i as int));
        assert(seen == seen_before(prefix, i as int)) by {
            assert(forall|j: int| 0 <= j <= i ==> prefix[j] == s[j]);
            if seen {
                let j = choose|j: int| 0 <= j < i && lower_of(s[j]) == lower_of(s[i as int]);
                assert(lower_of(prefix[j]) == lower_of(prefix[i as int]));
            }
        }
        if !seen {
            out.push(input[i].clone());
            assert(views(out@) =~= dedup_keys(s.subrange(0, i as int)).push(s[i as int]));
        }
        keys.push(key);
        i = i + 1;
    }
    assert(s.subrange(0, input@.len() as int) =~= s);
    out
}

/// The places where a contract file is looked for, in order, without
/// duplicates.
pub fn default_contract_candidates(env_override: Option<&str>, cwd: &str, exe_dir: Option<&str>) -> (r:
    Vec<String>)
    ensures
        views(r@) == dedup_keys(
            raw_candidates(
                match env_override {
                    Some(e) => Some(e@),
                    None => None,
                },
                cwd@,
                match exe_dir {
                    Some(d) => Some(d@),
                    None => None,
                },
            ),
        ),
{
    let mut out: Vec<String> = Vec::new();
    if let Some(e) = env_override {
        if !is_blank(e) {
            out.push(trim(e).to_owned());
        }
    }
    out.push(join_path(cwd, "contracts/daemon_rpc_contract.v1.json"));
    out.push(join_path(cwd, "../contracts/daemon_rpc_contract.v1.json"));
    out.push(join_path(cwd, "../../contracts/daemon_rpc_contract.v1.json"));
    out.push(join_path(cwd, "../../../contracts/daemon_rpc_contract.v1.json"));
    if let Some(d) = exe_dir {
        out.push(join_path(d, "contracts/daemon_rpc_contract.v1.json"));
        out.push(join_path(d, "../contracts/daemon_rpc_contract.v1.json"));
        out.push(join_path(d, "../../contracts/daemon_rpc_contract.v1.json"));
    }
    let ghost env_v = match env_override {
        Some(e) => Some(e@),
        None => None,
    };
    let ghost exe_v = match exe_dir {
        Some(d) => Some(d@),
        None => None,
    };
    assert(views(out@) =~= raw_candidates(env_v, cwd@, exe_v));
    dedup_paths(out)
}

/// Picks the contract file. An explicit path (trimmed) must exist; without
/// one, the first candidate that exists wins.
///
/// `explicit_exists` says whether the trimmed explicit path exists, and
/// `exists[i]` whether `candidates[i]` does.
pub fn resolve_contract_path(
    explicit: Option<&str>,
    explicit_exists: bool,
    candidates: &Vec<String>,
    exists: &Vec<bool>,
) -> (r: Result<String, ContractError>)
    requires
        candidates@.len() == exists@.len(),
    ensures
        explicit is Some && explicit_exists ==> r is Ok && r->Ok_0@ == trimmed(
            explicit->0@,
        ),
        explicit is Some && !explicit_exists ==> (r matches Err(ContractError::NotFound(Some(p)))
            && p@ == trimmed(explicit->0@)),
        explicit is None ==> (r is Ok <==> any_hit(exists@)),
        explicit is None && r is Ok ==> exists|i: int|
            is_first_hit(exists@, i) && r->Ok_0@ == candidates@[i]@,
        explicit is None && r is Err ==> (r matches Err(ContractError::NotFound(None))),
{
    if let Some(v) = explicit {
        let p = trim(v).to_owned();
        if explicit_exists {
            return Ok(p);
        }
        return Err(ContractError::NotFound(Some(p)));
    }
    match first_existing(exists) {
        Some(i) => Ok(candidates[i].clone()),
        None => Err(ContractError::NotFound(None)),
    }
}

/// The texts of an array whose items are all strings.
pub open spec fn texts_of(items: Seq<Json>) -> Option<Seq<Seq<char>>>
    decreases items.len(),
{
    if items.len() == 0 {
        Some(Seq::empty())
    } else {
        match (texts_of(items.drop_last()), items.last()) {
            (Some(t), Json::Str(s)) => Some(t.push(s@)),
            _ => None,
        }
    }
}

/// A list-of-strings member: absent means empty; anything but an array of
/// strings is refused.
pub open spec fn text_list_field(obj: Json, key: Seq<char>) -> Option<Seq<Seq<char>>> {
    match field(obj, key) {
        None => Some(Seq::empty()),
        Some(Json::Array(items)) => texts_of(items@),
        Some(_) => None,
    }
}

/// Reads the list-of-strings member `key` of `obj`.
fn text_list(obj: &Json, key: &str) -> (r: Option<Vec<String>>)
    ensures
        match r {
            Some(v) => text_list_field(*obj, key@) == Some(views(v@)),
            None => text_list_field(*obj, key@) is None,
        },
{
    match obj.get(key) {
        None => Some(Vec::new()),
        Some(Json::Array(items)) => {
            let mut out: Vec<String> = Vec::new();
            let mut i: usize = 0;
            while i < items.len()
                invariant
                    field(*obj, key@) == Some(Json::Array(*items)),
                    i <= items@.len(),
                    texts_of(items@.subrange(0, i as int)) == Some(views(out@)),
                decreases items@.len() - i,
            {
                let ghost pre = items@.subrange(0, i as int);
                assert(items@.subrange(0, i + 1).drop_last() =~= pre);
                match &items[i] {
                    Json::Str(s) => {
                        let ghost before = views(out@);
                        out.push(s.clone());
                        assert(views(out@) =~= before.push(s@));
                    },
                    _ => {
                        proof {
                            lemma_texts_stop(items@, i as int + 1);
                        }
                        return None;
                    },
                }
                i = i + 1;
            }
            assert(items@.subrange(0, items@.len() as int) =~= items@);
            Some(out)
        },
        Some(_) => None,
    }
}

/// Once an item is no string, later items change nothing.
proof fn lemma_texts_stop(items: Seq<Json>, k: int)
    requires
        0 <= k <= items.len(),
        texts_of(items.subrange(0, k)) is None,
    ensures
        texts_of(items) is None,
    decreases items.len() - k,
{
    if k < items.len() {
        assert(items.subrange(0, k + 1).drop_last() =~= items.subrange(0, k));
        lemma_texts_stop(items, k + 1);
    } else {
        assert(items.subrange(0, k) =~= items);
    }
}

/// Whether an object's three method lists are well formed.
pub open spec fn method_shape_ok(v: Json) -> bool {
    &&& v is Object
    &&& text_list_field(v, "params_required"@) is Some
    &&& text_list_field(v, "params_optional"@) is Some
    &&& text_list_field(v, "response_ok_fields"@) is Some
}

/// `m` is the shape that the object `v` describes.
pub open spec fn method_shape_of(m: MethodSpec, v: Json) -> bool {
    &&& Some(views(m.params_required@)) == text_list_field(v, "params_required"@)
    &&& Some(views(m.params_optional@)) == text_list_field(v, "params_optional"@)
    &&& Some(views(m.response_ok_fields@)) == text_list_field(v, "response_ok_fields"@)
}

/// The members of the `methods` object, none where it is absent.
pub open spec fn method_members(doc: Json) -> Option<Seq<(String, Json)>> {
    match field(doc, "methods"@) {
        None => Some(Seq::empty()),
        Some(Json::Object(ms)) => Some(ms@),
        Some(_) => None,
    }
}

/// The enumeration `key` of the `enums` object: empty where `enums` is
/// absent, refused where it is no object.
pub open spec fn enum_list(doc: Json, key: Seq<char>) -> Option<Seq<Seq<char>>> {
    match field(doc, "enums"@) {
        None => Some(Seq::empty()),
        Some(e) => if e is Object {
            text_list_field(e, key)
        } else {
            None
        },
    }
}

/// Whether `doc` has the shape of a contract document: an object whose
/// `name` and `version` are strings and whose optional `enums` and `methods`
/// members hold lists of strings.
pub open spec fn contract_doc_ok(doc: Json) -> bool {
    &&& doc is Object
    &&& field(doc, "name"@) matches Some(Json::Str(_))
    &&& field(doc, "version"@) matches Some(Json::Str(_))
    &&& enum_list(doc, "methods"@) is Some
    &&& enum_list(doc, "task_kinds"@) is Some
    &&& enum_list(doc, "task_status"@) is Some
    &&& enum_list(doc, "task_terminal_status"@) is Some
    &&& method_members(doc) matches Some(ms) && forall|i: int|
        0 <= i < ms.len() ==> method_shape_ok(#[trigger] ms[i].1)
}

/// The model of an optional member: its value, or `null`.
pub open spec fn member_or_null(v: Option<Json>) -> JsonV {
    match v {
        Some(j) => j.deep(),
        None => JsonV::Null,
    }
}

/// `c` is what the well-formed document `doc` describes.
pub open spec fn contract_of(c: RpcContract, doc: Json) -> bool {
    &&& Some(Json::Str(c.name)) == field(doc, "name"@)
    &&& Some(Json::Str(c.version)) == field(doc, "version"@)
    &&& c.transport.deep() == member_or_null(field(doc, "transport"@))
    &&& c.auth.deep() == member_or_null(field(doc, "auth"@))
    &&& Some(views(c.enums.methods@)) == enum_list(doc, "methods"@)
    &&& Some(views(c.enums.task_kinds@)) == enum_list(doc, "task_kinds"@)
    &&& Some(views(c.enums.task_status@)) == enum_list(doc, "task_status"@)
    &&& Some(views(c.enums.task_terminal_status@)) == enum_list(doc, "task_terminal_status"@)
    &&& c.methods@.len() == method_members(doc)->0.len()
    &&& forall|i: int|
        0 <= i < c.methods@.len() ==> (#[trigger] c.methods@[i]).0@ == method_members(doc)->0[i].0@
            && method_shape_of(c.methods@[i].1, method_members(doc)->0[i].1)
}

/// A malformed method shape makes the whole document malformed.
proof fn lemma_bad_method(doc: Json, i: int)
    requires
        method_members(doc) is Some,
        0 <= i < method_members(doc)->0.len(),
        !method_shape_ok(method_members(doc)->0[i].1),
    ensures
        !contract_doc_ok(doc),
{
}

/// The text of a string member.
fn member_text(doc: &Json, key: &str) -> (r: Option<String>)
    ensures
        match r {
            Some(s) => field(*doc, key@) == Some(Json::Str(s)),
            None => !(field(*doc, key@) matches Some(Json::Str(_))),
        },
{
    match doc.get(key) {
        Some(Json::Str(s)) => Some(s.clone()),
        _ => None,
    }
}

/// Reads a contract document: `name` and `version` are required strings;
/// `transport` and `auth` default to `null`; the enumerations and method
/// shapes default to empty.
pub fn contract_from_json(doc: &Json) -> (r: Result<RpcContract, ContractError>)
    ensures
        contract_doc_ok(*doc) ==> r is Ok && contract_of(r->Ok_0, *doc),
        !contract_doc_ok(*doc) ==> (r matches Err(ContractError::ParseError(_))),
{
    if !matches!(doc, Json::Object(_)) {
        return Err(ContractError::ParseError("contract is not an object".to_owned()));
    }
    let name = match member_text(doc, "name") {
        Some(n) => n,
        None => {
            return Err(ContractError::ParseError("contract name is not a string".to_owned()));
        },
    };
    let version = match member_text(doc, "version") {
        Some(v) => v,
        None => {
            return Err(ContractError::ParseError("contract version is not a string".to_owned()));
        },
    };
    let transport = match doc.get("transport") {
        Some(t) => t.duplicate(),
        None => Json::Null,
    };
    let auth = match doc.get("auth") {
        Some(a) => a.duplicate(),
        None => Json::Null,
    };
    let bad_enums = ContractError::ParseError("contract enums hold a non-string".to_owned());
    let (methods_list, task_kinds, task_status, task_terminal_status) = match doc.get("enums") {
        None => {
            let ghost empty = Seq::<Seq<char>>::empty();
            let r = (Vec::new(), Vec::new(), Vec::new(), Vec::new());
            assert(views(r.0@) =~= empty && views(r.1@) =~= empty && views(r.2@) =~= empty
                && views(r.3@) =~= empty);
            r
        },
        Some(e) => {
            if !matches!(e, Json::Object(_)) {
                return Err(ContractError::ParseError("contract enums is not an object".to_owned()));
            }
            let a = match text_list(e, "methods") {
                Some(v) => v,
                None => return Err(bad_enums),
            };
            let b = match text_list(e, "task_kinds") {
                Some(v) => v,
                None => return Err(bad_enums),
            };
            let c = match text_list(e, "task_status") {
                Some(v) => v,
                None => return Err(bad_enums),
            };
            let d = match text_list(e, "task_terminal_status") {
                Some(v) => v,
                None => return Err(bad_enums),
            };
            (a, b, c, d)
        },
    };
    let mut methods: Vec<(String, MethodSpec)> = Vec::new();
    match doc.get("methods") {
        None => {},
        Some(Json::Object(ms)) => {
            let mut i: usize = 0;
            while i < ms.len()
                invariant
                    method_members(*doc) == Some(ms@),
                    i <= ms@.len(),
                    methods@.len() == i,
                    forall|j: int| 0 <= j < i ==> method_shape_ok(#[trigger] ms@[j].1),
                    forall|j: int|
                        0 <= j < i ==> (#[trigger] methods@[j]).0@ == ms@[j].0@ && method_shape_of(
                            methods@[j].1,
                            ms@[j].1,
                        ),
                decreases ms@.len() - i,
            {
                let v = &ms[i].1;
                let bad = ContractError::ParseError("contract method shape is malformed".to_owned());
                if !matches!(v, Json::Object(_)) {
                    proof {
                        lemma_bad_method(*doc, i as int);
                    }
                    return Err(bad);
                }
                let params_required = match text_list(v, "params_required") {
                    Some(l) => l,
                    None => {
                        proof {
                            lemma_bad_method(*doc, i as int);
                        }
                        return Err(bad);
                    },
                };
                let params_optional = match text_list(v, "params_optional") {
                    Some(l) => l,
                    None => {
                        proof {
                            lemma_bad_method(*doc, i as int);
                        }
                        return Err(bad);
                    },
                };
                let response_ok_fields = match text_list(v, "response_ok_fields") {
                    Some(l) => l,
                    None => {
                        proof {
                            lemma_bad_method(*doc, i as int);
                        }
                        return Err(bad);
                    },
                };
                methods.push(
                    (ms[i].0.clone(), MethodSpec { params_required, params_optional, response_ok_fields }),
                );
                i = i + 1;
            }
        },
        Some(_) => {
            return Err(ContractError::ParseError("contract methods is not an object".to_owned()));
        },
    }
    Ok(
        RpcContract {
            name,
            version,
            transport,
            auth,
            enums: RpcEnums { methods: methods_list, task_kinds, task_status, task_terminal_status },
            methods,
        },
    )
}

/// Parses the text of a contract file; text that is no JSON document is a
/// `ParseError`.
pub fn parse_contract_text(text: &str) -> (r: Result<serde_json::Value, ContractError>)
    ensures
        r is Ok <==> is_json_document(text@),
        r is Err ==> (r matches Err(ContractError::ParseError(_))),
{
    match parse_json(text) {
        Ok(v) => Ok(v),
        Err(e) => Err(ContractError::ParseError(e.to_string())),
    }
}

/// Reads a contract document and checks that it names itself and its
/// version.
pub fn load_contract_document(doc: &Json) -> (r: Result<RpcContract, ContractError>)
    ensures
        !contract_doc_ok(*doc) ==> (r matches Err(ContractError::ParseError(_))),
        contract_doc_ok(*doc) ==> match r {
            Ok(c) => contract_of(c, *doc) && c.wf(),
            Err(e) => (e matches ContractError::InvalidContract) && exists|c: RpcContract|
                contract_of(c, *doc) && !c.wf(),
        },
{
    let c = contract_from_json(doc)?;
    validate_contract(c)
}

/// Accepts a parsed contract whose name and version are not blank.
pub fn validate_contract(c: RpcContract) -> (r: Result<RpcContract, ContractError>)
    ensures
        c.wf() ==> r == Ok::<RpcContract, ContractError>(c),
        !c.wf() ==> (r matches Err(ContractError::InvalidContract)),
{
    if is_blank(c.name.as_str()) || is_blank(c.version.as_str()) {
        return Err(ContractError::InvalidContract);
    }
    Ok(c)
}

/// The summary of contract `c`, loaded from `path`.
pub fn to_summary(path: &str, c: &RpcContract) -> (r: ContractSummary)
    ensures
        r.path@ == path@,
        r.name@ == c.name@,
        r.version@ == c.version@,
        r.methods@ == c.enums.methods@,
        r.task_kinds@ == c.enums.task_kinds@,
{
    ContractSummary {
        path: path.to_owned(),
        name: c.name.clone(),
        version: c.version.clone(),
        methods: copy_texts(&c.enums.methods),
        task_kinds: copy_texts(&c.enums.task_kinds),
    }
}

} // verus!
