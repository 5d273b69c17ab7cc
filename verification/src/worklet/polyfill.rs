//! Polyfill loaded before the worklet script, as an import or inline.

use vstd::prelude::*;

verus! {

/// The statement importing the polyfill from its object URL.
pub open spec fn spec_polyfill_import(url: Seq<char>) -> Seq<char> {
    "import '"@ + url + "';\n"@
}

/// The import statement names the polyfill's URL: different URLs give
/// different statements.
pub proof fn lemma_polyfill_import_names_url(url: Seq<char>, other: Seq<char>)
    ensures
        spec_polyfill_import(url) == spec_polyfill_import(other) ==> url == other,
{
    crate::common::lemma_framed_text("import '"@, url, other, "';\n"@);
}

/// Polyfill loaded through an import of its object URL.
#[derive(Debug)]
pub struct PolyfillImport {
    /// The import statement.
    pub import: String,
    /// The object URL, revoked when dropped.
    pub url: String,
}

impl PolyfillImport {
    /// Builds the import of the polyfill at the object URL `url`.
    pub fn new(url: String) -> (polyfill: Self)
        ensures
            polyfill.import@ == spec_polyfill_import(url@),
            polyfill.url@ == url@,
    {
        let mut import = String::from_str("import '");
        import.append(url.as_str());
        import.append("';\n");
        PolyfillImport { import, url }
    }

    /// The import statement.
    pub fn import(&self) -> (import: &str)
        ensures
            import@ == self.import@,
    {
        self.import.as_str()
    }
}

/// Polyfill inlined into the worklet script.
#[derive(Debug)]
pub struct PolyfillInline(pub String);

impl PolyfillInline {
    /// The polyfill script.
    pub fn script(&self) -> (script: &str)
        ensures
            script@ == self.0@,
    {
        self.0.as_str()
    }
}

} // verus!
