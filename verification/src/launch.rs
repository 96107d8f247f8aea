//! The launcher's one decision: from the initialization options, which server
//! URI and arguments to start the language server with.

use vstd::prelude::*;
use vstd::string::StringExecFns;
use crate::options::ConfigValue;
use crate::options::spec_get;
use crate::selector::DocumentFilter;
use crate::selector::is_latex_selector;
use crate::selector::latex_document_selector;
use crate::uri::parse_uri;
use crate::uri::uri_ok;

verus! {

/// The one directive the launcher emits: start the server named by
/// `server_uri` with `server_args`, handling the files that
/// `document_selector` matches, and hand it the raw options back.
/// `server_uri_text` is the exact text the URI was parsed from; the contracts
/// speak of it, since the parsed form is opaque to the library.
pub struct StartDirective {
    pub server_uri: url::Url,
    pub server_uri_text: String,
    pub server_args: Vec<String>,
    pub document_selector: Vec<DocumentFilter>,
    pub raw_options: Option<ConfigValue>,
}

/// The one error the launcher can report: the configured server path did not
/// yield a well-formed URI. Carries the text that was rejected.
#[derive(Debug, PartialEq, Eq)]
pub struct ConfigError {
    pub attempted_uri: String,
}

/// The `lsp` entry of the options, if the options are an object holding one.
pub open spec fn spec_lsp(options: Option<ConfigValue>) -> Option<ConfigValue> {
    match options {
        Some(o) => spec_get(o, "lsp"@),
        None => None,
    }
}

/// The strings among `items`, in order; every other element is dropped.
pub open spec fn string_items(items: Seq<ConfigValue>) -> Seq<Seq<char>>
    decreases items.len(),
{
    if items.len() == 0 {
        Seq::empty()
    } else {
        match items.last() {
            ConfigValue::Str(s) => string_items(items.drop_last()).push(s@),
            _ => string_items(items.drop_last()),
        }
    }
}

/// The server arguments the options ask for: the string elements of
/// `lsp.serverArgs` when that entry is an array, and nothing otherwise.
pub open spec fn spec_server_args(options: Option<ConfigValue>) -> Seq<Seq<char>> {
    match spec_lsp(options) {
        Some(lsp) => match spec_get(lsp, "serverArgs"@) {
            Some(ConfigValue::Arr(items)) => string_items(items@),
            _ => Seq::empty(),
        },
        None => Seq::empty(),
    }
}

/// The server path the options ask for: `lsp.serverPath` when that entry is a
/// non-empty string; an empty string counts as no path at all.
pub open spec fn spec_server_path(options: Option<ConfigValue>) -> Option<Seq<char>> {
    match spec_lsp(options) {
        Some(lsp) => match spec_get(lsp, "serverPath"@) {
            Some(ConfigValue::Str(s)) => if s@.len() > 0 {
                Some(s@)
            } else {
                None
            },
            _ => None,
        },
        None => None,
    }
}

/// The URI text the launcher builds: the configured path under the synthetic
/// `urn:` scheme, or the default binary name on the host's search path.
pub open spec fn spec_uri_text(options: Option<ConfigValue>) -> Seq<char> {
    match spec_server_path(options) {
        Some(p) => "urn:"@ + p,
        None => "urn:texlab"@,
    }
}

/// Law: the strings collected from an argument array are exactly its
/// string-typed elements, in their original order, every other element
/// silently dropped.
pub proof fn lemma_string_items_are_the_strings(items: Seq<ConfigValue>)
    ensures
        string_items(items) == items.filter(|v: ConfigValue| v is Str).map_values(
            |v: ConfigValue| v->Str_0@,
        ),
    decreases items.len(),
{
    let pred = |v: ConfigValue| v is Str;
    let f = |v: ConfigValue| v->Str_0@;
    if items.len() == 0 {
        assert(items.filter(pred).map_values(f) =~= Seq::<Seq<char>>::empty());
    } else {
        lemma_string_items_are_the_strings(items.drop_last());
        assert(items.filter(pred).map_values(f) =~= string_items(items)) by {
            reveal_with_fuel(Seq::filter, 2);
            if pred(items.last()) {
                assert(items.filter(pred) == items.drop_last().filter(pred).push(items.last()));
                assert(items.filter(pred).map_values(f) =~= items.drop_last().filter(pred)
                    .map_values(f).push(f(items.last())));
            }
        }
    }
}

/// Law: options without an `lsp` entry take the default server and no
/// arguments.
pub proof fn lemma_no_lsp_takes_default(options: Option<ConfigValue>)
    requires
        spec_lsp(options) is None,
    ensures
        spec_uri_text(options) == "urn:texlab"@,
        spec_server_args(options) == Seq::<Seq<char>>::empty(),
{
}

/// Law: an empty `lsp.serverPath` counts as no configured path, so the
/// default server is taken.
pub proof fn lemma_empty_path_takes_default(options: Option<ConfigValue>)
    requires
        match spec_lsp(options) {
            Some(lsp) => match spec_get(lsp, "serverPath"@) {
                Some(p) => p is Str && p->Str_0@.len() == 0,
                None => true,
            },
            None => true,
        },
    ensures
        spec_uri_text(options) == "urn:texlab"@,
{
}

/// Collects the string elements of `items`, in order.
fn collect_strings(items: &Vec<ConfigValue>) -> (r: Vec<String>)
    ensures
        r@.map_values(|s: String| s@) == string_items(items@),
{
    let mut r: Vec<String> = Vec::new();
    let n = items.len();
    let mut i: usize = 0;
    while i < n
        invariant
            0 <= i <= n,
            n == items@.len(),
            r@.map_values(|s: String| s@) == string_items(items@.take(i as int)),
        decreases n - i,
    {
        let ghost prev = r@;
        match &items[i] {
            ConfigValue::Str(s) => {
                r.push(s.clone());
            },
            _ => {},
        }
        proof {
            assert(items@.take(i as int + 1).drop_last() =~= items@.take(i as int));
            assert(items@.take(i as int + 1).last() == items@[i as int]);
            if items@[i as int] is Str {
                assert(r@.map_values(|s: String| s@) =~= prev.map_values(|s: String| s@).push(
                    items@[i as int]->Str_0@,
                ));
            }
        }
        i = i + 1;
    }
    proof {
        assert(items@.take(n as int) =~= items@);
    }
    r
}

/// The string elements of `lsp.serverArgs`, when that entry is an array.
fn extract_args(options: &Option<ConfigValue>) -> (r: Vec<String>)
    ensures
        r@.map_values(|s: String| s@) == spec_server_args(*options),
{
    if let Some(o) = options {
        if let Some(lsp) = o.get("lsp") {
            if let Some(args_val) = lsp.get("serverArgs") {
                if let Some(items) = args_val.as_array() {
                    return collect_strings(items);
                }
            }
        }
    }
    let r: Vec<String> = Vec::new();
    proof {
        assert(r@.map_values(|s: String| s@) =~= Seq::<Seq<char>>::empty());
    }
    r
}

/// The configured server path, when `lsp.serverPath` is a non-empty string.
fn extract_path(options: &Option<ConfigValue>) -> (r: Option<String>)
    ensures
        match r {
            Some(p) => spec_server_path(*options) == Some(p@),
            None => spec_server_path(*options) is None,
        },
{
    if let Some(o) = options {
        if let Some(lsp) = o.get("lsp") {
            if let Some(path_val) = lsp.get("serverPath") {
                if let Some(s) = path_val.as_str() {
                    if !s.as_str().is_empty() {
                        return Some(s.clone());
                    }
                }
            }
        }
    }
    None
}

/// Decides, from the initialization options, how to start the language
/// server: with the configured path under the `urn:` scheme when
/// `lsp.serverPath` is a non-empty string, and with the default binary name
/// otherwise. Emits exactly one outcome per call: a start directive when the
/// built URI text is well formed, and a configuration error otherwise, never
/// both and never neither.
pub fn initialize(options: Option<ConfigValue>) -> (r: Result<StartDirective, ConfigError>)
    ensures
        r is Ok <==> uri_ok(spec_uri_text(options)),
        r is Err <==> !uri_ok(spec_uri_text(options)),
        r matches Ok(d) ==> ({
            &&& d.server_uri_text@ == spec_uri_text(options)
            &&& d.server_args@.map_values(|s: String| s@) == spec_server_args(options)
            &&& is_latex_selector(d.document_selector@)
            &&& d.raw_options == options
        }),
        r matches Err(e) ==> e.attempted_uri@ == spec_uri_text(options),
{
    let document_selector = latex_document_selector();
    let server_args = extract_args(&options);
    let path = extract_path(&options);

    let uri_text: String = match &path {
        Some(p) => String::from_str("urn:").concat(p.as_str()),
        None => "urn:texlab".to_owned(),
    };
    match parse_uri(uri_text.as_str()) {
        Ok(u) => Ok(
            StartDirective {
                server_uri: u,
                server_uri_text: uri_text,
                server_args,
                document_selector,
                raw_options: options,
            },
        ),
        Err(_) => Err(ConfigError { attempted_uri: uri_text }),
    }
}

} // verus!
