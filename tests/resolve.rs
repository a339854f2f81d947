use pkg_latest::resolve::{compose_specifier, parse_input, registry_query_url, Registry};
use pkg_latest::specifier::{extract_jsr_parts, extract_npm_parts};

#[test]
fn tags_of_registries() {
    assert_eq!(Registry::Npm.tag(), "npm");
    assert_eq!(Registry::Jsr.tag(), "jsr");
}

#[test]
fn npm_tag_is_taken_off() {
    let r = parse_input("npm:lodash/fp/map");
    assert_eq!(r.registry, Registry::Npm);
    assert_eq!(r.package, "lodash/fp/map");
    assert_eq!(r.base, "lodash");
    assert_eq!(r.subpath, "/fp/map");
}

#[test]
fn jsr_tag_is_taken_off() {
    let r = parse_input("jsr:@scope/pkg/mod");
    assert_eq!(r.registry, Registry::Jsr);
    assert_eq!(r.package, "@scope/pkg/mod");
    assert_eq!(r.base, "@scope/pkg");
    assert_eq!(r.subpath, "/mod");
}

#[test]
fn untagged_input_uses_flat_registry() {
    let r = parse_input("@google/gemini-cli/gemini");
    assert_eq!(r.registry, Registry::Npm);
    assert_eq!(r.package, "@google/gemini-cli/gemini");
    assert_eq!(r.base, "@google/gemini-cli");
    assert_eq!(r.subpath, "/gemini");
}

#[test]
fn near_miss_tags_are_not_tags() {
    let r = parse_input("jsr@x/y");
    assert_eq!(r.registry, Registry::Npm);
    assert_eq!(r.package, "jsr@x/y");
    let r = parse_input("npm");
    assert_eq!(r.registry, Registry::Npm);
    assert_eq!(r.package, "npm");
    let r = parse_input("jsr:");
    assert_eq!(r.registry, Registry::Jsr);
    assert_eq!(r.package, "");
    assert_eq!(r.base, "");
    assert_eq!(r.subpath, "");
}

#[test]
fn registry_addresses() {
    assert_eq!(
        registry_query_url(Registry::Npm, "lodash"),
        "https://registry.npmjs.org/lodash"
    );
    assert_eq!(
        registry_query_url(Registry::Npm, "@google/gemini-cli"),
        "https://registry.npmjs.org/@google/gemini-cli"
    );
    assert_eq!(
        registry_query_url(Registry::Jsr, "@sigma/bisect"),
        "https://jsr.io/@sigma/bisect/meta.json"
    );
}

#[test]
fn composed_specifiers() {
    assert_eq!(
        compose_specifier(Registry::Npm, "lodash", "4.17.21", ""),
        "npm:lodash@4.17.21"
    );
    assert_eq!(
        compose_specifier(Registry::Jsr, "@scope/pkg", "1.2.0", "/mod"),
        "jsr:@scope/pkg@1.2.0/mod"
    );
}

#[test]
fn composed_specifier_reparses_to_same_split() {
    let path = "@az/e/f/c";
    let (base, subpath) = extract_npm_parts(path);
    let version = "0.3.1";
    let text = compose_specifier(Registry::Npm, base, version, subpath);
    assert_eq!(text, "npm:@az/e@0.3.1/f/c");
    let after_tag = &text[4..];
    let back = format!(
        "{}{}",
        &after_tag[..base.len()],
        &after_tag[base.len() + 1 + version.len()..]
    );
    assert_eq!(back, path);
    assert_eq!(extract_npm_parts(&back), (base, subpath));
    assert_eq!(extract_npm_parts(base), (base, ""));
    let (jbase, jsub) = extract_jsr_parts("@sigma/bisect/mod");
    assert_eq!(extract_jsr_parts(jbase), (jbase, ""));
    assert_eq!(jsub, "/mod");
}

#[test]
fn resolved_flat_name_is_reported() {
    let r = parse_input("npm:lodash");
    assert_eq!(r.outcome(Ok("4.17.21")), Ok("npm:lodash@4.17.21".to_string()));
}

#[test]
fn resolved_scoped_name_keeps_subpath() {
    let r = parse_input("jsr:@sigma/bisect/mod");
    assert_eq!(
        r.outcome(Ok("0.5.0")),
        Ok("jsr:@sigma/bisect@0.5.0/mod".to_string())
    );
}

#[test]
fn failed_lookup_names_the_package() {
    let r = parse_input("npm:doesnotexist");
    let out = r.outcome(Err("http status: 404"));
    assert_eq!(
        out,
        Err("Error: Failed to get npm version for doesnotexist: http status: 404".to_string())
    );
    assert!(out.unwrap_err().contains("doesnotexist"));
}

#[test]
fn failure_message_for_scoped_registry() {
    let r = parse_input("jsr:@nope/nothing");
    assert_eq!(
        r.failure_message("not found"),
        "Error: Failed to get jsr version for @nope/nothing: not found"
    );
}
