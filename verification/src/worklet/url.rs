//! Object URL of the worklet script: the pieces of the script, and the
//! steps of fetching a classic shim. The default URL is cached once made.

use vstd::prelude::*;

use crate::common::Step;
use crate::worklet::module::{import_line, inline_imports, spec_import_line, spec_inline_imports, ShimFormat};

verus! {

/// Object URL of a worklet script.
#[derive(Debug)]
pub struct WorkletUrl(pub String);

impl WorkletUrl {
    /// Wraps the object URL the browser created for a script.
    pub fn new_internal(url: String) -> (worklet_url: Self)
        ensures
            worklet_url.0@ == url@,
    {
        WorkletUrl(url)
    }

    /// Returns the object URL.
    pub fn as_raw(&self) -> (url: &str)
        ensures
            url@ == self.0@,
    {
        self.0.as_str()
    }
}

/// The pieces of a worklet script importing the shim at `url`, followed by
/// the worklet script `body`.
pub fn new_import(url: &str, body: &str) -> (sequence: Vec<String>)
    ensures
        sequence@.len() == 2,
        sequence@[0]@ == spec_import_line(url@),
        sequence@[1]@ == body@,
{
    let mut sequence: Vec<String> = Vec::new();
    sequence.push(import_line(url));
    sequence.push(String::from_str(body));
    sequence
}

/// The pieces of a worklet script inlining the classic `shim` with the
/// global object `global`, followed by the worklet script `body`.
pub fn new_inline(shim: String, global: &str, body: &str) -> (sequence: Vec<String>)
    ensures
        sequence@.len() == 3,
        sequence@[0]@ == shim@,
        sequence@[1]@ == "\n"@ + spec_inline_imports(global@),
        sequence@[2]@ == body@,
{
    let mut imports = String::from_str("\n");
    let lines = inline_imports(global);
    imports.append(lines.as_str());
    let mut sequence: Vec<String> = Vec::new();
    sequence.push(shim);
    sequence.push(imports);
    sequence.push(String::from_str(body));
    sequence
}

/// Error of making a worklet URL.
#[derive(Debug)]
pub enum WorkletUrlError<E> {
    /// The browser can't import modules in worklets.
    Support,
    /// Fetching the shim failed with this error.
    Fetch(E),
}

impl<E> WorkletUrlError<E> {
    /// The message of the error; for a fetch error it is followed by the
    /// error itself.
    pub fn message(&self) -> (message: String)
        ensures
            self is Support ==> message@ == "browser doesn't support importing modules in worklets"@,
            self is Fetch ==> message@ == "error fetching shim URL: "@,
    {
        match self {
            WorkletUrlError::Support => String::from_str("browser doesn't support importing modules in worklets"),
            WorkletUrlError::Fetch(_) => String::from_str("error fetching shim URL: "),
        }
    }
}

/// A made URL: the default one, kept in the cache, or the pieces of a
/// script of its own (the caller makes its object URL).
#[derive(Debug)]
pub enum UrlRef {
    /// The default URL in the cache.
    Default,
    /// The pieces of an own script.
    Owned(Vec<String>),
}

/// A finished URL made of pieces satisfying `made`: the default one refers
/// to the cache, which takes the pieces unless it held some already; an own
/// one is handed out and leaves the cache alone.
pub open spec fn spec_url_made(
    result: UrlRef,
    default: bool,
    before: Option<Option<Vec<String>>>,
    after: Option<Option<Vec<String>>>,
    made: spec_fn(Vec<String>) -> bool,
) -> bool {
    if default {
        &&& result is Default
        &&& before is None ==> (after matches Some(Some(v)) && made(v))
        &&& before is Some ==> after == before
    } else {
        &&& result matches UrlRef::Owned(v) && made(v)
        &&& after == before
    }
}

/// The pieces of a script importing the shim at `url`.
pub open spec fn is_import_pieces(pieces: Vec<String>, url: Seq<char>, body: Seq<char>) -> bool {
    pieces@.len() == 2 && pieces@[0]@ == spec_import_line(url) && pieces@[1]@ == body
}

/// The pieces of a script inlining `shim` with the global object `global`.
pub open spec fn is_inline_pieces(pieces: Vec<String>, shim: Seq<char>, global: Seq<char>, body: Seq<char>) -> bool {
    pieces@.len() == 3 && pieces@[0]@ == shim && pieces@[1]@ == "\n"@ + spec_inline_imports(global)
        && pieces@[2]@ == body
}

/// The default URL once made: `Some(None)` if there is none.
#[derive(Debug)]
pub struct DefaultUrl {
    /// The cached value: the pieces of the default script.
    pub url: Option<Option<Vec<String>>>,
}

impl DefaultUrl {
    /// Nothing cached yet.
    pub fn new() -> (cache: Self)
        ensures
            cache.url is None,
    {
        DefaultUrl { url: None }
    }
}

/// State of [`WorkletUrlFuture`].
#[derive(Debug)]
pub enum UrlState<E> {
    /// Fetching the classic shim that defines the global object `global`.
    Fetch { global: String },
    /// Reading the text of the fetched shim.
    Text { global: String },
    /// Finished.
    Ready(Result<UrlRef, WorkletUrlError<E>>),
}

/// Makes a worklet URL. `None` once finished.
#[derive(Debug)]
pub struct WorkletUrlFuture<E> {
    /// Current state.
    pub state: Option<UrlState<E>>,
    /// This makes the default URL, which is cached.
    pub default: bool,
}

/// What one step of making the URL does.
#[derive(Debug)]
pub enum UrlStep<E> {
    /// Wait.
    Pending,
    /// The state changed; go on with the next step.
    Continue,
    /// Finished with this result.
    Ready(Result<UrlRef, WorkletUrlError<E>>),
}

/// The result a cached default URL gives.
pub open spec fn spec_cached_url<E>(cached: Option<Vec<String>>) -> Result<UrlRef, WorkletUrlError<E>> {
    match cached {
        Some(_) => Ok(UrlRef::Default),
        None => Err(WorkletUrlError::Support),
    }
}

/// The default URL is cached at most once: a finished URL leaves a cache
/// that held something as it was, and a URL of its own never touches the
/// cache; only the first default one fills it.
pub proof fn lemma_default_url_cached_once(
    result: UrlRef,
    default: bool,
    before: Option<Option<Vec<String>>>,
    after: Option<Option<Vec<String>>>,
    made: spec_fn(Vec<String>) -> bool,
)
    requires
        spec_url_made(result, default, before, after, made),
    ensures
        before is Some ==> after == before,
        !default ==> after == before && result is Owned,
        default ==> result is Default && after is Some && !(after matches Some(None) && before is None),
{
}

/// A cached default URL is handed out: once the cache holds a URL, asking
/// for the default one gives it; only a cache that holds that modules can't
/// be imported gives the support error.
pub proof fn lemma_cached_url_handed_out<E>(cached: Option<Vec<String>>)
    ensures
        (spec_cached_url::<E>(cached) is Ok <==> cached is Some),
        cached is Some ==> spec_cached_url::<E>(cached) == Ok::<UrlRef, WorkletUrlError<E>>(UrlRef::Default),
        cached is None ==> spec_cached_url::<E>(cached) == Err::<UrlRef, WorkletUrlError<E>>(WorkletUrlError::Support),
{
}

/// The state once the script's pieces are known: the default one is stored
/// in the cache (if not there already); a cache holding no URL can't take
/// one (that is a panic).
pub fn ready_url<E>(sequence: Vec<String>, default: bool, cache: &mut DefaultUrl) -> (state: UrlState<E>)
    requires
        default ==> !(old(cache).url matches Some(None)),
    ensures
        state matches UrlState::Ready(Ok(r)) && spec_url_made(r, default, old(cache).url, final(cache).url, |v: Vec<String>| v == sequence),
{
    if default {
        if cache.url.is_none() {
            cache.url = Some(Some(sequence));
        }
        UrlState::Ready(Ok(UrlRef::Default))
    } else {
        UrlState::Ready(Ok(UrlRef::Owned(sequence)))
    }
}

impl<E> WorkletUrlFuture<E> {
    /// Starts making the URL of a script for the shim at `url` in `format`:
    /// an ES module is imported at once; a classic shim is fetched (the
    /// caller starts the fetch).
    pub fn new(url: &str, format: ShimFormat, body: &str, default: bool, cache: &mut DefaultUrl) -> (future: Self)
        requires
            default ==> !(old(cache).url matches Some(None)),
        ensures
            future.default == default,
            match format {
                ShimFormat::EsModule => future.state matches Some(UrlState::Ready(Ok(r))) && spec_url_made(
                    r,
                    default,
                    old(cache).url,
                    final(cache).url,
                    |v: Vec<String>| is_import_pieces(v, url@, body@),
                ),
                ShimFormat::Classic { global } => future.state matches Some(UrlState::Fetch { global: g }) && g@ == global@,
            },
    {
        let state = match format {
            ShimFormat::EsModule => ready_url(new_import(url, body), default, cache),
            ShimFormat::Classic { global } => UrlState::Fetch { global },
        };
        WorkletUrlFuture { state: Some(state), default }
    }

    /// Stops: takes the state (a running fetch is aborted by the caller).
    /// Returns whether the result was a URL, if finished.
    pub fn abort(&mut self) -> (finished: Option<bool>)
        ensures
            final(self).state is None,
            final(self).default == old(self).default,
            match old(self).state {
                Some(UrlState::Ready(r)) => finished == Some(r is Ok),
                _ => finished is None,
            },
    {
        match self.state.take() {
            Some(UrlState::Ready(result)) => Some(result.is_ok()),
            _ => None,
        }
    }

    /// First step of polling: a cached default URL ends making it at once.
    /// Polling after completion is a panic.
    pub fn poll_start(&mut self, cache: &DefaultUrl) -> (step: UrlStep<E>)
        requires
            old(self).state is Some,
        ensures
            final(self).default == old(self).default,
            (old(self).default && (cache.url matches Some(Some(_)))) ==> step == UrlStep::Ready(
                Ok::<UrlRef, WorkletUrlError<E>>(UrlRef::Default),
            ),
            (old(self).default && (cache.url matches Some(None))) ==> step == UrlStep::Ready(
                Err::<UrlRef, WorkletUrlError<E>>(WorkletUrlError::Support),
            ),
            match (old(self).default, cache.url) {
                (true, Some(cached)) => step == UrlStep::Ready(spec_cached_url::<E>(cached)) && final(self).state is None,
                _ => step is Continue && final(self).state == old(self).state,
            },
    {
        if self.default {
            match &cache.url {
                Some(Some(_)) => {
                    let _ = self.abort();
                    return UrlStep::Ready(Ok(UrlRef::Default));
                },
                Some(None) => {
                    let _ = self.abort();
                    return UrlStep::Ready(Err(WorkletUrlError::Support));
                },
                None => {},
            }
        }
        UrlStep::Continue
    }

    /// Step while fetching the shim: `response` is the outcome of polling
    /// the fetch and, if it succeeded, of asking for its text.
    pub fn step_fetch(&mut self, response: Step<Result<(), E>>) -> (step: UrlStep<E>)
        requires
            old(self).state matches Some(UrlState::Fetch { .. }),
        ensures
            final(self).default == old(self).default,
            match response {
                Step::Pending => step is Pending && final(self).state == old(self).state,
                Step::Ready(Ok(())) => step is Continue && match old(self).state {
                    Some(UrlState::Fetch { global }) => final(self).state == Some(UrlState::<E>::Text { global }),
                    _ => false,
                },
                Step::Ready(Err(e)) => step == UrlStep::<E>::Ready(Err(WorkletUrlError::Fetch(e)))
                    && final(self).state is None,
            },
    {
        match response {
            Step::Pending => UrlStep::Pending,
            Step::Ready(Ok(())) => {
                if let Some(UrlState::Fetch { global }) = self.state.take() {
                    self.state = Some(UrlState::Text { global });
                }
                UrlStep::Continue
            },
            Step::Ready(Err(error)) => {
                self.state = None;
                UrlStep::Ready(Err(WorkletUrlError::Fetch(error)))
            },
        }
    }

    /// Step while reading the text of the shim: the text is inlined.
    pub fn step_text(&mut self, text: Step<Result<String, E>>, body: &str, cache: &mut DefaultUrl) -> (step: UrlStep<E>)
        requires
            old(self).state matches Some(UrlState::Text { .. }),
            old(self).default ==> !(old(cache).url matches Some(None)),
        ensures
            final(self).default == old(self).default,
            match text {
                Step::Pending => step is Pending && final(self).state == old(self).state,
                Step::Ready(Ok(shim)) => step is Continue && match old(self).state {
                    Some(UrlState::Text { global }) => final(self).state matches Some(UrlState::Ready(Ok(r)))
                        && spec_url_made(r, old(self).default, old(cache).url, final(cache).url,
                            |v: Vec<String>| is_inline_pieces(v, shim@, global@, body@)),
                    _ => false,
                },
                Step::Ready(Err(e)) => step == UrlStep::<E>::Ready(Err(WorkletUrlError::Fetch(e)))
                    && final(self).state is None,
            },
    {
        match text {
            Step::Pending => UrlStep::Pending,
            Step::Ready(Ok(shim)) => {
                let global = match self.state.take() {
                    Some(UrlState::Text { global }) => global,
                    _ => String::new(),
                };
                let sequence = new_inline(shim, global.as_str(), body);
                self.state = Some(ready_url(sequence, self.default, cache));
                UrlStep::Continue
            },
            Step::Ready(Err(error)) => {
                self.state = None;
                UrlStep::Ready(Err(WorkletUrlError::Fetch(error)))
            },
        }
    }

    /// Step once finished: hands out the result.
    pub fn step_ready(&mut self) -> (step: UrlStep<E>)
        requires
            old(self).state matches Some(UrlState::Ready(_)),
        ensures
            final(self).default == old(self).default,
            final(self).state is None,
            match old(self).state {
                Some(UrlState::Ready(r)) => step == UrlStep::<E>::Ready(r),
                _ => false,
            },
    {
        match self.state.take() {
            Some(UrlState::Ready(result)) => UrlStep::Ready(result),
            _ => UrlStep::Pending,
        }
    }

    /// Returns the URL without waiting, if it is made. Calling it after
    /// completion is a panic.
    pub fn into_inner(&mut self, cache: &DefaultUrl) -> (result: Option<Result<UrlRef, WorkletUrlError<E>>>)
        requires
            old(self).state is Some,
        ensures
            final(self).default == old(self).default,
            (old(self).default && (cache.url matches Some(Some(_)))) ==> result == Some(
                Ok::<UrlRef, WorkletUrlError<E>>(UrlRef::Default),
            ),
            match (old(self).default, cache.url) {
                (true, Some(cached)) => result == Some(spec_cached_url::<E>(cached)) && final(self).state is None,
                _ => match old(self).state {
                    Some(UrlState::Ready(r)) => result == Some(r) && final(self).state is None,
                    _ => result is None && final(self).state == old(self).state,
                },
            },
    {
        if self.default {
            match &cache.url {
                Some(Some(_)) => {
                    let _ = self.abort();
                    return Some(Ok(UrlRef::Default));
                },
                Some(None) => {
                    let _ = self.abort();
                    return Some(Err(WorkletUrlError::Support));
                },
                None => {},
            }
        }
        match &self.state {
            Some(UrlState::Ready(_)) => match self.state.take() {
                Some(UrlState::Ready(result)) => Some(result),
                _ => None,
            },
            _ => None,
        }
    }

    /// Returns [`true`] once finished.
    pub fn is_terminated(&self) -> (terminated: bool)
        ensures
            terminated == self.state is None,
    {
        self.state.is_none()
    }
}

} // verus!
