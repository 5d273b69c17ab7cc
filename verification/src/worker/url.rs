//! Script of the workers: imports the shim and runs the worker entry.

use vstd::prelude::*;

verus! {

/// The import line a worker script starts with.
pub open spec fn spec_worker_import(shim_url: Seq<char>) -> Seq<char> {
    "import {initSync, __web_thread_worker_entry} from '"@ + shim_url + "';\n\n"@
}

/// The worker script names its shim: the URL stands right after the import,
/// so different shims give different import lines.
pub proof fn lemma_worker_import_names_shim(shim_url: Seq<char>, other: Seq<char>)
    ensures
        spec_worker_import(shim_url) == spec_worker_import(other) ==> shim_url == other,
        spec_worker_import(shim_url).subrange(
            "import {initSync, __web_thread_worker_entry} from '"@.len() as int,
            ("import {initSync, __web_thread_worker_entry} from '"@.len() + shim_url.len()) as int,
        ) == shim_url,
{
    crate::common::lemma_framed_text("import {initSync, __web_thread_worker_entry} from '"@, shim_url, other, "';\n\n"@);
}

/// Builds the worker script: the import of the shim at `shim_url`, then the
/// script `body`.
pub fn worker_script(shim_url: &str, body: &str) -> (script: String)
    ensures
        script@ == spec_worker_import(shim_url@) + body@,
{
    let mut script = String::from_str("import {initSync, __web_thread_worker_entry} from '");
    script.append(shim_url);
    script.append("';\n\n");
    script.append(body);
    script
}

/// Wrapper around an object URL to a script.
#[derive(Debug)]
pub struct WorkerUrl(pub String);

impl WorkerUrl {
    /// Wraps the object URL the browser created for the script.
    pub fn new(url: String) -> (worker_url: Self)
        ensures
            worker_url.0@ == url@,
    {
        WorkerUrl(url)
    }

    /// Returns the object URL.
    pub fn as_raw(&self) -> (url: &str)
        ensures
            url@ == self.0@,
    {
        self.0.as_str()
    }
}

} // verus!
