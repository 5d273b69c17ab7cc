//! Module script of worklets: how the shim is imported or inlined, and the
//! steps of fetching it. The default module is cached once made.

use vstd::prelude::*;

use crate::common::Step;

verus! {

/// Format of the JS shim.
#[derive(Debug)]
pub enum ShimFormat {
    /// An ES module, imported.
    EsModule,
    /// A classic script defining a global object named `global`.
    Classic { global: String },
}

/// The import line of a worklet script importing the shim at `url`.
pub open spec fn spec_import_line(url: Seq<char>) -> Seq<char> {
    "import {initSync, __wasm_worker_worklet_entry} from '"@ + url + "';\n\n"@
}

/// The lines of a worklet script taking the entry points from the global
/// object `global` of an inlined classic shim.
pub open spec fn spec_inline_imports(global: Seq<char>) -> Seq<char> {
    "const initSync = "@ + global + ".initSync;\nconst __wasm_worker_worklet_entry = "@ + global
        + ".__wasm_worker_worklet_entry;\n\n"@
}

/// The import line names the shim: the URL stands in it right after the
/// import, so different URLs give different lines. Likewise the inlined
/// imports name the global object.
pub proof fn lemma_import_line_names_shim(url: Seq<char>, other: Seq<char>)
    ensures
        spec_import_line(url) == spec_import_line(other) ==> url == other,
        spec_inline_imports(url) == spec_inline_imports(other) ==> url == other,
{
    let prefix = "import {initSync, __wasm_worker_worklet_entry} from '"@;
    crate::common::lemma_framed_text(prefix, url, other, "';\n\n"@);
    let first = "const initSync = "@;
    let rest = ".initSync;\nconst __wasm_worker_worklet_entry = "@;
    let end = ".__wasm_worker_worklet_entry;\n\n"@;
    assert(spec_inline_imports(url) =~= first + url + (rest + url + end));
    assert(spec_inline_imports(other) =~= first + other + (rest + other + end));
    if spec_inline_imports(url) == spec_inline_imports(other) {
        let a = first + url + (rest + url + end);
        let b = first + other + (rest + other + end);
        assert(a.len() == b.len());
        assert(url.len() == other.len());
        assert forall|i: int| 0 <= i < url.len() implies url[i] == other[i] by {
            assert(a[first.len() + i] == url[i]);
            assert(b[first.len() + i] == other[i]);
        }
        assert(url =~= other);
    }
}

/// Builds the import line for the shim at `url`.
pub fn import_line(url: &str) -> (line: String)
    ensures
        line@ == spec_import_line(url@),
{
    let mut line = String::from_str("import {initSync, __wasm_worker_worklet_entry} from '");
    line.append(url);
    line.append("';\n\n");
    line
}

/// Builds the lines taking the entry points from the global object
/// `global`.
pub fn inline_imports(global: &str) -> (lines: String)
    ensures
        lines@ == spec_inline_imports(global@),
{
    let mut lines = String::from_str("const initSync = ");
    lines.append(global);
    lines.append(".initSync;\nconst __wasm_worker_worklet_entry = ");
    lines.append(global);
    lines.append(".__wasm_worker_worklet_entry;\n\n");
    lines
}

/// The parts of a worklet module script, before the worklet script itself.
#[derive(Debug)]
pub enum ModuleType {
    /// The shim is imported.
    Import { polyfill: String, imports: String },
    /// The shim is inlined.
    Inline { polyfill: String, shim: String, imports: String },
}

impl ModuleType {
    /// A module importing the shim at `url`, after importing the polyfill.
    pub fn import(polyfill_import: &str, url: &str) -> (module: Self)
        ensures
            module matches ModuleType::Import { polyfill, imports } && polyfill@ == polyfill_import@
                && imports@ == spec_import_line(url@),
    {
        ModuleType::Import { polyfill: String::from_str(polyfill_import), imports: import_line(url) }
    }

    /// A module inlining the classic `shim` that defines the global object
    /// `global`, after the inlined polyfill.
    pub fn inline(polyfill_script: &str, shim: String, global: &str) -> (module: Self)
        ensures
            module matches ModuleType::Inline { polyfill, shim: s, imports } && polyfill@ == polyfill_script@
                && s@ == shim@ && imports@ == spec_inline_imports(global@),
    {
        ModuleType::Inline { polyfill: String::from_str(polyfill_script), shim, imports: inline_imports(global) }
    }

    /// The pieces of the module script, in order, ending with the worklet
    /// script `body`.
    pub fn to_sequence(&self, body: &str) -> (sequence: Vec<String>)
        ensures
            match *self {
                ModuleType::Import { polyfill, imports } => sequence@.len() == 3
                    && sequence@[0]@ == polyfill@ && sequence@[1]@ == imports@ && sequence@[2]@ == body@,
                ModuleType::Inline { polyfill, shim, imports } => sequence@.len() == 4
                    && sequence@[0]@ == polyfill@ && sequence@[1]@ == shim@ && sequence@[2]@ == imports@
                    && sequence@[3]@ == body@,
            },
    {
        let mut sequence: Vec<String> = Vec::new();
        match self {
            ModuleType::Import { polyfill, imports } => {
                sequence.push(polyfill.clone());
                sequence.push(imports.clone());
            },
            ModuleType::Inline { polyfill, shim, imports } => {
                sequence.push(polyfill.clone());
                sequence.push(shim.clone());
                sequence.push(imports.clone());
            },
        }
        sequence.push(String::from_str(body));
        sequence
    }
}

/// Module script of worklets.
#[derive(Debug)]
pub struct WorkletModule(pub ModuleType);

/// Error of making a worklet module.
#[derive(Debug)]
pub enum WorkletModuleError<E> {
    /// The browser can't import modules in worklets.
    Support,
    /// Fetching the shim failed with this error.
    Fetch(E),
}

impl<E> WorkletModuleError<E> {
    /// The message of the error; for a fetch error it is followed by the
    /// error itself.
    pub fn message(&self) -> (message: String)
        ensures
            self is Support ==> message@ == "browser doesn't support importing modules in worklets"@,
            self is Fetch ==> message@ == "error fetching shim URL: "@,
    {
        match self {
            WorkletModuleError::Support => String::from_str("browser doesn't support importing modules in worklets"),
            WorkletModuleError::Fetch(_) => String::from_str("error fetching shim URL: "),
        }
    }
}

/// A made module: the default one, kept in the cache, or an own one.
#[derive(Debug)]
pub enum ModuleRef {
    /// The default module in the cache.
    Default,
    /// A module of its own.
    Owned(WorkletModule),
}

/// The module imports the shim at `url` after the polyfill import
/// `polyfill`.
pub open spec fn is_import(module: ModuleType, polyfill: Seq<char>, url: Seq<char>) -> bool {
    module matches ModuleType::Import { polyfill: p, imports: i } && p@ == polyfill && i@ == spec_import_line(url)
}

/// The module inlines `shim` with the global object `global` after the
/// inlined polyfill `polyfill`.
pub open spec fn is_inline(module: ModuleType, polyfill: Seq<char>, shim: Seq<char>, global: Seq<char>) -> bool {
    module matches ModuleType::Inline { polyfill: p, shim: s, imports: i } && p@ == polyfill && s@ == shim
        && i@ == spec_inline_imports(global)
}

/// A finished module satisfying `made`: the default one refers to the
/// cache, which takes the module unless it held one already; an own one
/// is handed out and leaves the cache alone.
pub open spec fn spec_made(
    result: ModuleRef,
    default: bool,
    before: Option<Option<WorkletModule>>,
    after: Option<Option<WorkletModule>>,
    made: spec_fn(ModuleType) -> bool,
) -> bool {
    if default {
        &&& result is Default
        &&& before is None ==> (after matches Some(Some(WorkletModule(m))) && made(m))
        &&& before is Some ==> after == before
    } else {
        &&& result matches ModuleRef::Owned(WorkletModule(m)) && made(m)
        &&& after == before
    }
}

/// The default module once made: `Some(None)` if the browser can't import
/// modules in worklets.
#[derive(Debug)]
pub struct DefaultModule {
    /// The cached value.
    pub module: Option<Option<WorkletModule>>,
}

impl DefaultModule {
    /// Nothing cached yet.
    pub fn new() -> (cache: Self)
        ensures
            cache.module is None,
    {
        DefaultModule { module: None }
    }
}

/// State of [`WorkletModuleFuture`].
#[derive(Debug)]
pub enum ModuleState<E> {
    /// Waiting for the import support check, to import the shim at `url`.
    ImportSupport { url: String },
    /// Fetching the classic shim that defines the global object `global`.
    Fetch { global: String },
    /// Reading the text of the fetched shim.
    Text { global: String },
    /// Finished.
    Ready(Result<ModuleRef, WorkletModuleError<E>>),
}

/// Makes a worklet module. `None` once finished.
#[derive(Debug)]
pub struct WorkletModuleFuture<E> {
    /// Current state.
    pub state: Option<ModuleState<E>>,
    /// This makes the default module, which is cached.
    pub default: bool,
}

/// What one step of making the module does.
#[derive(Debug)]
pub enum ModuleStep<E> {
    /// Wait.
    Pending,
    /// The state changed; go on with the next step.
    Continue,
    /// Finished with this result.
    Ready(Result<ModuleRef, WorkletModuleError<E>>),
}

/// The state of a finished module: the default one is stored in the cache
/// (if not there already); a cache that holds the answer that modules
/// can't be imported can't take a module (that is a panic).
pub fn ready_state<E>(module: ModuleType, default: bool, cache: &mut DefaultModule) -> (state: ModuleState<E>)
    requires
        default ==> !(old(cache).module matches Some(None)),
    ensures
        state matches ModuleState::Ready(Ok(r)) && spec_made(r, default, old(cache).module, final(cache).module, |m: ModuleType| m == module),
{
    if default {
        if cache.module.is_none() {
            cache.module = Some(Some(WorkletModule(module)));
        }
        ModuleState::Ready(Ok(ModuleRef::Default))
    } else {
        ModuleState::Ready(Ok(ModuleRef::Owned(WorkletModule(module))))
    }
}

/// The state when modules can't be imported; for the default module this
/// is cached.
pub fn error_state<E>(default: bool, cache: &mut DefaultModule) -> (state: ModuleState<E>)
    ensures
        state matches ModuleState::Ready(Err(WorkletModuleError::Support)),
        default && old(cache).module is None ==> final(cache).module == Some(None::<WorkletModule>),
        !(default && old(cache).module is None) ==> final(cache).module == old(cache).module,
{
    if default && cache.module.is_none() {
        cache.module = Some(None);
    }
    ModuleState::Ready(Err(WorkletModuleError::Support))
}

/// The result a cached default module gives.
pub open spec fn spec_cached_result<E>(cached: Option<WorkletModule>) -> Result<ModuleRef, WorkletModuleError<E>> {
    match cached {
        Some(_) => Ok(ModuleRef::Default),
        None => Err(WorkletModuleError::Support),
    }
}

/// The default module is cached at most once: a finished module leaves a
/// cache that held something as it was, and a module of its own never
/// touches the cache; only the first default one fills it.
pub proof fn lemma_default_module_cached_once(
    result: ModuleRef,
    default: bool,
    before: Option<Option<WorkletModule>>,
    after: Option<Option<WorkletModule>>,
    made: spec_fn(ModuleType) -> bool,
)
    requires
        spec_made(result, default, before, after, made),
    ensures
        before is Some ==> after == before,
        !default ==> after == before && result is Owned,
        default ==> result is Default && after is Some && !(after matches Some(None) && before is None),
{
}

/// A cached default module is handed out: once the cache holds a module,
/// asking for the default one gives it; only a cache that holds that modules
/// can't be imported gives the support error.
pub proof fn lemma_cached_module_handed_out<E>(cached: Option<WorkletModule>)
    ensures
        (spec_cached_result::<E>(cached) is Ok <==> cached is Some),
        cached is Some ==> spec_cached_result::<E>(cached) == Ok::<ModuleRef, WorkletModuleError<E>>(ModuleRef::Default),
        cached is None ==> spec_cached_result::<E>(cached) == Err::<ModuleRef, WorkletModuleError<E>>(
            WorkletModuleError::Support,
        ),
{
}

/// Starts making a module for the shim at `url` in `format`. For an ES
/// module it depends on import support: `import_support` is the answer, if
/// known at once. A classic shim is fetched (the caller starts the fetch).
pub fn new_module_future<E>(
    url: &str,
    format: ShimFormat,
    import_support: Option<bool>,
    polyfill_import: &str,
    default: bool,
    cache: &mut DefaultModule,
) -> (future: WorkletModuleFuture<E>)
    requires
        default ==> !(old(cache).module matches Some(None)),
    ensures
        future.default == default,
        match format {
            ShimFormat::EsModule => match import_support {
                Some(true) => future.state matches Some(ModuleState::Ready(Ok(r))) && spec_made(
                    r,
                    default,
                    old(cache).module,
                    final(cache).module,
                    |m: ModuleType| is_import(m, polyfill_import@, url@),
                ),
                Some(false) => future.state matches Some(ModuleState::Ready(Err(WorkletModuleError::Support))),
                None => future.state matches Some(ModuleState::ImportSupport { url: u }) && u@ == url@,
            },
            ShimFormat::Classic { global } => future.state matches Some(ModuleState::Fetch { global: g }) && g@ == global@,
        },
{
    let state = match format {
        ShimFormat::EsModule => match import_support {
            Some(true) => ready_state(ModuleType::import(polyfill_import, url), default, cache),
            Some(false) => error_state(default, cache),
            None => ModuleState::ImportSupport { url: String::from_str(url) },
        },
        ShimFormat::Classic { global } => ModuleState::Fetch { global },
    };
    WorkletModuleFuture { state: Some(state), default }
}

impl<E> WorkletModuleFuture<E> {
    /// Stops: takes the state (a running fetch is aborted by the caller).
    /// Returns whether the result was a module, if finished.
    pub fn abort(&mut self) -> (finished: Option<bool>)
        ensures
            final(self).state is None,
            final(self).default == old(self).default,
            match old(self).state {
                Some(ModuleState::Ready(r)) => finished == Some(r is Ok),
                _ => finished is None,
            },
    {
        let state = self.state.take();
        match state {
            Some(ModuleState::Ready(result)) => Some(result.is_ok()),
            _ => None,
        }
    }

    /// First step of polling: a cached default module ends making it at
    /// once. Polling after completion is a panic.
    pub fn poll_start(&mut self, cache: &DefaultModule) -> (step: ModuleStep<E>)
        requires
            old(self).state is Some,
        ensures
            final(self).default == old(self).default,
            (old(self).default && (cache.module matches Some(Some(_)))) ==> step == ModuleStep::Ready(
                Ok::<ModuleRef, WorkletModuleError<E>>(ModuleRef::Default),
            ),
            (old(self).default && (cache.module matches Some(None))) ==> step == ModuleStep::Ready(
                Err::<ModuleRef, WorkletModuleError<E>>(WorkletModuleError::Support),
            ),
            match (old(self).default, cache.module) {
                (true, Some(cached)) => step == ModuleStep::Ready(spec_cached_result::<E>(cached))
                    && final(self).state is None,
                _ => step is Continue && final(self).state == old(self).state,
            },
    {
        if self.default {
            match &cache.module {
                Some(Some(_)) => {
                    let _ = self.abort();
                    return ModuleStep::Ready(Ok(ModuleRef::Default));
                },
                Some(None) => {
                    let _ = self.abort();
                    return ModuleStep::Ready(Err(WorkletModuleError::Support));
                },
                None => {},
            }
        }
        ModuleStep::Continue
    }

    /// Step while waiting for the import support check; `support` is the
    /// outcome of polling it.
    pub fn step_import_support(&mut self, support: Step<bool>, polyfill_import: &str, cache: &mut DefaultModule) -> (step: ModuleStep<E>)
        requires
            old(self).state matches Some(ModuleState::ImportSupport { .. }),
            old(self).default ==> !(old(cache).module matches Some(None)),
        ensures
            final(self).default == old(self).default,
            match support {
                Step::Pending => step is Pending && final(self).state == old(self).state,
                Step::Ready(true) => step is Continue && match old(self).state {
                    Some(ModuleState::ImportSupport { url }) => final(self).state matches Some(ModuleState::Ready(Ok(r)))
                        && spec_made(r, old(self).default, old(cache).module, final(cache).module,
                            |m: ModuleType| is_import(m, polyfill_import@, url@)),
                    _ => false,
                },
                Step::Ready(false) => step is Continue
                    && final(self).state matches Some(ModuleState::Ready(Err(WorkletModuleError::Support))),
            },
    {
        match support {
            Step::Pending => ModuleStep::Pending,
            Step::Ready(supported) => {
                let state = self.state.take();
                let url = match state {
                    Some(ModuleState::ImportSupport { url }) => url,
                    _ => String::new(),
                };
                let next = if supported {
                    ready_state(ModuleType::import(polyfill_import, url.as_str()), self.default, cache)
                } else {
                    error_state(self.default, cache)
                };
                self.state = Some(next);
                ModuleStep::Continue
            },
        }
    }

    /// Step while fetching the shim: `response` is the outcome of polling
    /// the fetch and, if it succeeded, of asking for its text. A failure
    /// ends making the module with that error.
    pub fn step_fetch(&mut self, response: Step<Result<(), E>>) -> (step: ModuleStep<E>)
        requires
            old(self).state matches Some(ModuleState::Fetch { .. }),
        ensures
            final(self).default == old(self).default,
            match response {
                Step::Pending => step is Pending && final(self).state == old(self).state,
                Step::Ready(Ok(())) => step is Continue && match old(self).state {
                    Some(ModuleState::Fetch { global }) => final(self).state == Some(ModuleState::<E>::Text { global }),
                    _ => false,
                },
                Step::Ready(Err(e)) => step == ModuleStep::<E>::Ready(Err(WorkletModuleError::Fetch(e)))
                    && final(self).state is None,
            },
    {
        match response {
            Step::Pending => ModuleStep::Pending,
            Step::Ready(Ok(())) => {
                let state = self.state.take();
                if let Some(ModuleState::Fetch { global }) = state {
                    self.state = Some(ModuleState::Text { global });
                }
                ModuleStep::Continue
            },
            Step::Ready(Err(error)) => {
                self.state = None;
                ModuleStep::Ready(Err(WorkletModuleError::Fetch(error)))
            },
        }
    }

    /// Step while reading the text of the shim; `text` is the outcome of
    /// polling it. The text is inlined, after the polyfill, taking the entry
    /// points from the shim's global object.
    pub fn step_text(&mut self, text: Step<Result<String, E>>, polyfill_script: &str, cache: &mut DefaultModule) -> (step: ModuleStep<E>)
        requires
            old(self).state matches Some(ModuleState::Text { .. }),
            old(self).default ==> !(old(cache).module matches Some(None)),
        ensures
            final(self).default == old(self).default,
            match text {
                Step::Pending => step is Pending && final(self).state == old(self).state,
                Step::Ready(Ok(shim)) => step is Continue && match old(self).state {
                    Some(ModuleState::Text { global }) => final(self).state matches Some(ModuleState::Ready(Ok(r)))
                        && spec_made(r, old(self).default, old(cache).module, final(cache).module,
                            |m: ModuleType| is_inline(m, polyfill_script@, shim@, global@)),
                    _ => false,
                },
                Step::Ready(Err(e)) => step == ModuleStep::<E>::Ready(Err(WorkletModuleError::Fetch(e)))
                    && final(self).state is None,
            },
    {
        match text {
            Step::Pending => ModuleStep::Pending,
            Step::Ready(Ok(shim)) => {
                let state = self.state.take();
                let global = match state {
                    Some(ModuleState::Text { global }) => global,
                    _ => String::new(),
                };
                let module = ModuleType::inline(polyfill_script, shim, global.as_str());
                self.state = Some(ready_state(module, self.default, cache));
                ModuleStep::Continue
            },
            Step::Ready(Err(error)) => {
                self.state = None;
                ModuleStep::Ready(Err(WorkletModuleError::Fetch(error)))
            },
        }
    }

    /// Step once finished: hands out the result.
    pub fn step_ready(&mut self) -> (step: ModuleStep<E>)
        requires
            old(self).state matches Some(ModuleState::Ready(_)),
        ensures
            final(self).default == old(self).default,
            final(self).state is None,
            match old(self).state {
                Some(ModuleState::Ready(r)) => step == ModuleStep::<E>::Ready(r),
                _ => false,
            },
    {
        match self.state.take() {
            Some(ModuleState::Ready(result)) => ModuleStep::Ready(result),
            _ => ModuleStep::Pending,
        }
    }

    /// Returns the module without waiting, if it is made: a cached default
    /// ends at once; while waiting for the import support check,
    /// `import_support` is its answer if known. Calling it after completion
    /// is a panic.
    pub fn into_inner(&mut self, cache: &mut DefaultModule, import_support: Option<bool>, polyfill_import: &str) -> (result: Option<Result<ModuleRef, WorkletModuleError<E>>>)
        requires
            old(self).state is Some,
            old(self).default ==> !(old(cache).module matches Some(None)),
        ensures
            final(self).default == old(self).default,
            (old(self).default && (old(cache).module matches Some(Some(_)))) ==> result == Some(
                Ok::<ModuleRef, WorkletModuleError<E>>(ModuleRef::Default),
            ),
            match (old(self).default, old(cache).module) {
                (true, Some(cached)) => result == Some(spec_cached_result::<E>(cached)) && final(self).state is None,
                _ => match old(self).state {
                    Some(ModuleState::ImportSupport { url }) => match import_support {
                        Some(true) => result matches Some(Ok(r)) && final(self).state is None
                            && spec_made(r, old(self).default, old(cache).module, final(cache).module,
                                |m: ModuleType| is_import(m, polyfill_import@, url@)),
                        Some(false) => result matches Some(Err(WorkletModuleError::Support)) && final(self).state is None
                            && (old(self).default && old(cache).module is None ==> (final(cache).module matches Some(Some(WorkletModule(m)))
                                && is_import(m, polyfill_import@, url@)))
                            && (!(old(self).default && old(cache).module is None) ==> final(cache).module == old(cache).module),
                        None => result is None && final(self).state == old(self).state,
                    },
                    Some(ModuleState::Ready(r)) => result == Some(r) && final(self).state is None,
                    _ => result is None && final(self).state == old(self).state,
                },
            },
    {
        if self.default {
            match &cache.module {
                Some(Some(_)) => {
                    let _ = self.abort();
                    return Some(Ok(ModuleRef::Default));
                },
                Some(None) => {
                    let _ = self.abort();
                    return Some(Err(WorkletModuleError::Support));
                },
                None => {},
            }
        }
        match &self.state {
            Some(ModuleState::ImportSupport { .. }) => {
                let support = match import_support {
                    Some(support) => support,
                    None => {
                        return None;
                    },
                };
                let state = self.state.take();
                let url = match state {
                    Some(ModuleState::ImportSupport { url }) => url,
                    _ => String::new(),
                };
                let ready: ModuleState<E> = ready_state(ModuleType::import(polyfill_import, url.as_str()), self.default, cache);
                match ready {
                    ModuleState::Ready(Ok(module)) => if support {
                        Some(Ok(module))
                    } else {
                        Some(Err(WorkletModuleError::Support))
                    },
                    _ => None,
                }
            },
            Some(ModuleState::Ready(_)) => match self.state.take() {
                Some(ModuleState::Ready(result)) => Some(result),
                _ => None,
            },
            _ => None,
        }
    }

    /// Returns [`true`] once finished.
    pub fn is_terminated(&self) -> (terminated: bool)
        ensures
            terminated == self.state is None,
    {
        self.state.is_none()
    }
}

} // verus!
