use vstd::prelude::*;

verus! {

/// What a [`Builder`] holds, as plain values.
pub struct BuilderView {
    pub name: Option<Seq<char>>,
    pub stack_size: Option<usize>,
    pub wasm_bindgen_shim_url: Option<Seq<char>>,
}

impl BuilderView {
    /// The configuration with nothing set.
    pub open spec fn base() -> BuilderView {
        BuilderView { name: None, stack_size: None, wasm_bindgen_shim_url: None }
    }

    /// This configuration with the thread's name set to `name`.
    pub open spec fn with_name(self, name: Seq<char>) -> BuilderView {
        BuilderView { name: Some(name), ..self }
    }

    /// This configuration with the stack size set to `size`.
    pub open spec fn with_stack_size(self, size: usize) -> BuilderView {
        BuilderView { stack_size: Some(size), ..self }
    }

    /// This configuration with the shim script URL set to `url`.
    pub open spec fn with_shim_url(self, url: Seq<char>) -> BuilderView {
        BuilderView { wasm_bindgen_shim_url: Some(url), ..self }
    }
}

/// Thread factory, which can be used in order to configure the properties of a new thread.
#[derive(Debug)]
pub struct Builder {
    // A name for the thread-to-be, for identification in panic messages
    name: Option<String>,
    // The size of the stack for the spawned thread in bytes
    stack_size: Option<usize>,
    // Url of the `wasm_bindgen` generated shim `.js` script to use as web worker entry point
    wasm_bindgen_shim_url: Option<String>,
}

impl View for Builder {
    type V = BuilderView;

    closed spec fn view(&self) -> BuilderView {
        BuilderView {
            name: self.name.deep_view(),
            stack_size: self.stack_size,
            wasm_bindgen_shim_url: self.wasm_bindgen_shim_url.deep_view(),
        }
    }
}

impl Default for Builder {
    fn default() -> (b: Builder)
        ensures
            b@ == BuilderView::base(),
            b@.name is None,
            b@.stack_size is None,
            b@.wasm_bindgen_shim_url is None,
    {
        Builder { name: None, stack_size: None, wasm_bindgen_shim_url: None }
    }
}

impl Builder {
    /// Generates the base configuration for spawning a thread, from which
    /// configuration methods can be chained.
    pub fn new() -> (b: Builder)
        ensures
            b@ == BuilderView::base(),
            b@.name is None,
            b@.stack_size is None,
            b@.wasm_bindgen_shim_url is None,
    {
        Builder::default()
    }

    /// Names the thread-to-be.
    pub fn name(self, name: String) -> (b: Builder)
        ensures
            b@ == self@.with_name(name@),
            b@.name == Some(name@),
            b@.stack_size == self@.stack_size,
            b@.wasm_bindgen_shim_url == self@.wasm_bindgen_shim_url,
    {
        let mut b = self;
        b.name = Some(name);
        b
    }

    /// Sets the size of the stack (in bytes) for the new thread.
    pub fn stack_size(self, size: usize) -> (b: Builder)
        ensures
            b@ == self@.with_stack_size(size),
            b@.stack_size == Some(size),
            b@.name == self@.name,
            b@.wasm_bindgen_shim_url == self@.wasm_bindgen_shim_url,
    {
        let mut b = self;
        b.stack_size = Some(size);
        b
    }

    /// Sets the URL of wasm_bindgen generated shim script.
    pub fn wasm_bindgen_shim_url(self, url: String) -> (b: Builder)
        ensures
            b@ == self@.with_shim_url(url@),
            b@.wasm_bindgen_shim_url == Some(url@),
            b@.name == self@.name,
            b@.stack_size == self@.stack_size,
    {
        let mut b = self;
        b.wasm_bindgen_shim_url = Some(url);
        b
    }

    /// The settings that starting a worker uses: the thread's name and the
    /// shim script URL (the stack size is not used).
    pub fn into_worker_settings(self) -> (r: (Option<String>, Option<String>))
        ensures
            r.0.deep_view() == self@.name,
            r.1.deep_view() == self@.wasm_bindgen_shim_url,
    {
        let Builder { name, wasm_bindgen_shim_url, .. } = self;
        (name, wasm_bindgen_shim_url)
    }
}

/// A setting keeps the value given, exactly, and leaves the other settings as
/// they were.
pub proof fn lemma_setting_keeps_value(b: BuilderView, name: Seq<char>, size: usize, url: Seq<char>)
    ensures
        b.with_name(name).name == Some(name),
        b.with_name(name).stack_size == b.stack_size,
        b.with_name(name).wasm_bindgen_shim_url == b.wasm_bindgen_shim_url,
        b.with_stack_size(size).stack_size == Some(size),
        b.with_stack_size(size).name == b.name,
        b.with_stack_size(size).wasm_bindgen_shim_url == b.wasm_bindgen_shim_url,
        b.with_shim_url(url).wasm_bindgen_shim_url == Some(url),
        b.with_shim_url(url).name == b.name,
        b.with_shim_url(url).stack_size == b.stack_size,
{
}

/// Each setting is kept apart from the others: setting two different ones in
/// either order gives the same configuration.
pub proof fn lemma_settings_commute(b: BuilderView, name: Seq<char>, size: usize, url: Seq<char>)
    ensures
        b.with_name(name).with_stack_size(size) == b.with_stack_size(size).with_name(name),
        b.with_name(name).with_shim_url(url) == b.with_shim_url(url).with_name(name),
        b.with_stack_size(size).with_shim_url(url) == b.with_shim_url(url).with_stack_size(size),
{
}

/// Setting a property again replaces what was set before: the last setting wins.
pub proof fn lemma_last_setting_wins(
    b: BuilderView,
    name1: Seq<char>,
    name2: Seq<char>,
    size1: usize,
    size2: usize,
    url1: Seq<char>,
    url2: Seq<char>,
)
    ensures
        b.with_name(name1).with_name(name2) == b.with_name(name2),
        b.with_stack_size(size1).with_stack_size(size2) == b.with_stack_size(size2),
        b.with_shim_url(url1).with_shim_url(url2) == b.with_shim_url(url2),
{
}

} // verus!
