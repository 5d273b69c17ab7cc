//! Scripts of the threads' workers and worklets: each imports the shim from
//! the URL of the current module and runs its entry point.

use vstd::prelude::*;

verus! {

/// A script importing `initSync` and the entry point `entry` from the
/// module at `url`, with `terminator` after the import, followed by `body`.
pub open spec fn spec_entry_script(entry: Seq<char>, url: Seq<char>, terminator: Seq<char>, body: Seq<char>) -> Seq<char> {
    "import {initSync, "@ + entry + "} from '"@ + url + "'"@ + terminator + body
}

/// An entry script names its module: for the same entry point, terminator
/// and body, different module URLs give different scripts.
pub proof fn lemma_entry_script_names_module(
    entry: Seq<char>,
    url: Seq<char>,
    other: Seq<char>,
    terminator: Seq<char>,
    body: Seq<char>,
)
    ensures
        spec_entry_script(entry, url, terminator, body) == spec_entry_script(entry, other, terminator, body) ==> url
            == other,
{
    let prefix = "import {initSync, "@ + entry + "} from '"@;
    let suffix = "'"@ + terminator + body;
    assert(spec_entry_script(entry, url, terminator, body) =~= prefix + url + suffix);
    assert(spec_entry_script(entry, other, terminator, body) =~= prefix + other + suffix);
    crate::common::lemma_framed_text(prefix, url, other, suffix);
}

/// Builds a script importing `initSync` and the entry point `entry` from
/// the module at `url`.
fn entry_script(entry: &str, url: &str, terminator: &str, body: &str) -> (script: String)
    ensures
        script@ == spec_entry_script(entry@, url@, terminator@, body@),
{
    let mut script = String::from_str("import {initSync, ");
    script.append(entry);
    script.append("} from '");
    script.append(url);
    script.append("'");
    script.append(terminator);
    script.append(body);
    script
}

/// The script of a thread's worker, as the object URL of [`Url`] holds it:
/// imports `__web_thread_entry` from `meta_url`.
pub fn thread_script(meta_url: &str, body: &str) -> (script: String)
    ensures
        script@ == spec_entry_script("__web_thread_entry"@, meta_url@, ";\n\n"@, body@),
{
    entry_script("__web_thread_entry", meta_url, ";\n\n", body)
}

/// The script of a spawned worker: imports `__web_thread_worker_entry` from
/// `meta_url`.
pub fn worker_entry_script(meta_url: &str, body: &str) -> (script: String)
    ensures
        script@ == spec_entry_script("__web_thread_worker_entry"@, meta_url@, "\n\n"@, body@),
{
    entry_script("__web_thread_worker_entry", meta_url, "\n\n", body)
}

/// The script of a registered audio worklet: imports
/// `__web_thread_worklet_entry` from `meta_url`.
pub fn worklet_entry_script(meta_url: &str, body: &str) -> (script: String)
    ensures
        script@ == spec_entry_script("__web_thread_worklet_entry"@, meta_url@, "\n\n"@, body@),
{
    entry_script("__web_thread_worklet_entry", meta_url, "\n\n", body)
}

/// Wrapper around an object URL to a worker script.
#[derive(Debug)]
pub struct Url(pub String);

impl Url {
    /// Wraps the object URL the browser created for the script.
    pub fn new(url: String) -> (wrapped: Self)
        ensures
            wrapped.0@ == url@,
    {
        Url(url)
    }

    /// Returns the object URL.
    pub fn as_raw(&self) -> (url: &str)
        ensures
            url@ == self.0@,
    {
        self.0.as_str()
    }
}

} // verus!
