use wasm_thread::{worker_script_source, ScriptPlan, WorkerScriptCache};

#[test]
fn script_replaces_every_placeholder() {
    let template = "importScripts('WASM_BINDGEN_SHIM_URL');\nconst u = 'WASM_BINDGEN_SHIM_URL';";
    let script = worker_script_source(template, "http://localhost/pkg/app.js");
    assert_eq!(
        script,
        "importScripts('http://localhost/pkg/app.js');\nconst u = 'http://localhost/pkg/app.js';"
    );
    assert_eq!(script, template.replace("WASM_BINDGEN_SHIM_URL", "http://localhost/pkg/app.js"));
}

#[test]
fn script_without_placeholder_is_unchanged() {
    let template = "self.onmessage = e => {};";
    assert_eq!(worker_script_source(template, "x.js"), template);
    assert_eq!(worker_script_source("", "x.js"), "");
}

#[test]
fn script_placeholder_only() {
    assert_eq!(worker_script_source("WASM_BINDGEN_SHIM_URL", "a.js"), "a.js");
    assert_eq!(worker_script_source("WASM_BINDGEN_SHIM_URLWASM_BINDGEN_SHIM_URL", "b"), "bb");
}

#[test]
fn script_partial_placeholder_is_kept() {
    let template = "WASM_BINDGEN_SHIM_UR WASM_BINDGEN_SHIM_URL_";
    assert_eq!(worker_script_source(template, "u"), "WASM_BINDGEN_SHIM_UR u_");
}

#[test]
fn script_overlapping_prefix() {
    let template = "WASM_WASM_BINDGEN_SHIM_URL";
    assert_eq!(worker_script_source(template, "ü.js"), "WASM_ü.js");
    assert_eq!(worker_script_source(template, "ü.js"), template.replace("WASM_BINDGEN_SHIM_URL", "ü.js"));
}

#[test]
fn script_url_containing_placeholder_is_not_replaced_again() {
    let out = worker_script_source("[WASM_BINDGEN_SHIM_URL]", "WASM_BINDGEN_SHIM_URL!");
    assert_eq!(out, "[WASM_BINDGEN_SHIM_URL!]");
}

#[test]
fn script_unicode_template() {
    let template = "// ünïcödé ✓ WASM_BINDGEN_SHIM_URL ✓";
    assert_eq!(worker_script_source(template, "s.js"), "// ünïcödé ✓ s.js ✓");
}

fn plan_name(p: &ScriptPlan) -> String {
    match p {
        ScriptPlan::Cached(u) => format!("cached {}", u),
        ScriptPlan::Publish(u) => format!("publish {}", u),
        ScriptPlan::DetectShimUrl => String::from("detect"),
    }
}

#[test]
fn cache_plans() {
    let mut cache = WorkerScriptCache::new();
    let t = "load('WASM_BINDGEN_SHIM_URL')";
    assert_eq!(plan_name(&cache.plan(t, None)), "detect");
    assert_eq!(plan_name(&cache.plan(t, Some(String::from("shim.js")))), "publish load('shim.js')");
    cache.remember(String::from("blob:abc"));
    assert_eq!(plan_name(&cache.plan(t, None)), "cached blob:abc");
    assert_eq!(plan_name(&cache.plan(t, Some(String::from("other.js")))), "cached blob:abc");
}

#[test]
fn cache_remember_replaces() {
    let mut cache = WorkerScriptCache::new();
    cache.remember(String::from("blob:1"));
    cache.remember(String::from("blob:2"));
    assert_eq!(plan_name(&cache.plan("", None)), "cached blob:2");
}

#[test]
fn detected_shim_url_gives_same_script() {
    let cache = WorkerScriptCache::new();
    let t = "importScripts('WASM_BINDGEN_SHIM_URL');";
    let given = match cache.plan(t, Some(String::from("app.js"))) {
        ScriptPlan::Publish(script) => script,
        _ => panic!("expected a script to publish"),
    };
    assert!(matches!(cache.plan(t, None), ScriptPlan::DetectShimUrl));
    assert_eq!(worker_script_source(t, "app.js"), given);
}
