use magicpak::error::Error;
use magicpak::helper::{
    calc_program_path, compilation_result, compiler_arguments, ensure_helper, HelperStep,
    RESOLVER_SOURCE_CODE,
};
use magicpak::process::CommandOutput;
use std::collections::hash_map::DefaultHasher;
use std::hash::{Hash, Hasher};
use std::path::Path;

fn digest(path: &str) -> u64 {
    let mut hasher = DefaultHasher::new();
    Path::new(path).hash(&mut hasher);
    hasher.finish()
}

fn output(success: bool, stdout: &[u8], stderr: &[u8]) -> CommandOutput {
    CommandOutput { success, stdout: stdout.to_vec(), stderr: stderr.to_vec() }
}

#[test]
fn program_path_is_named_by_the_two_digests() {
    let interp = "/lib64/ld-linux-x86-64.so.2";
    let cc = "/usr/bin/cc";
    let path = calc_program_path("/tmp", interp, cc);
    assert_eq!(path, format!("/tmp/magicpak_resolver_{}_{}", digest(interp), digest(cc)));
}

#[test]
fn program_path_is_deterministic() {
    let first = calc_program_path("/var/tmp", "/lib/ld.so", "/usr/bin/gcc");
    let second = calc_program_path("/var/tmp", "/lib/ld.so", "/usr/bin/gcc");
    assert_eq!(first, second);
}

#[test]
fn program_path_tells_pairs_apart() {
    let base = calc_program_path("/tmp", "/lib/ld.so", "/usr/bin/gcc");
    assert_ne!(base, calc_program_path("/tmp", "/lib/ld-musl.so", "/usr/bin/gcc"));
    assert_ne!(base, calc_program_path("/tmp", "/lib/ld.so", "/usr/bin/clang"));
    assert_ne!(base, calc_program_path("/tmp", "/usr/bin/gcc", "/lib/ld.so"));
}

#[test]
fn program_path_digests_paths_not_texts() {
    // As paths, these two name the same file.
    assert_eq!(
        calc_program_path("/tmp", "/lib//ld.so", "/usr/bin/cc"),
        calc_program_path("/tmp", "/lib/ld.so", "/usr/bin/cc")
    );
}

#[test]
fn compiler_is_given_the_fixed_arguments() {
    let arguments = compiler_arguments("/tmp/.tmpAbC", "/lib64/ld.so", "/tmp/magicpak_resolver_1_2");
    assert_eq!(
        arguments,
        vec![
            "-xc".to_string(),
            "/tmp/.tmpAbC".to_string(),
            "-Wl,-dynamic-linker,/lib64/ld.so".to_string(),
            "-ldl".to_string(),
            "-o".to_string(),
            "/tmp/magicpak_resolver_1_2".to_string(),
        ]
    );
}

#[test]
fn source_asks_the_loader() {
    assert!(RESOLVER_SOURCE_CODE.contains("dlopen(name, RTLD_LAZY)"));
    assert!(RESOLVER_SOURCE_CODE.contains("dlinfo(handle, RTLD_DI_LINKMAP, &link_map)"));
    assert!(RESOLVER_SOURCE_CODE.contains("puts(link_map->l_name);"));
    assert!(RESOLVER_SOURCE_CODE.contains("return 1;"));
    assert!(RESOLVER_SOURCE_CODE.contains("return 2;"));
    assert!(RESOLVER_SOURCE_CODE.starts_with("\n#define _GNU_SOURCE\n"));
    assert!(RESOLVER_SOURCE_CODE.ends_with("dlclose(handle);\n}"));
}

#[test]
fn successful_compilation_is_ok() {
    assert_eq!(compilation_result(&output(true, b"", b"warning: unused")), Ok(()));
}

#[test]
fn failed_compilation_carries_the_diagnostics() {
    assert_eq!(
        compilation_result(&output(false, b"ignored", b"ld: cannot find -ldl")),
        Err(Error::ResolverCompilation("ld: cannot find -ldl".to_string()))
    );
}

#[test]
fn failed_compilation_replaces_what_is_not_text() {
    assert_eq!(
        compilation_result(&output(false, b"", &[b'a', 0xff, b'b'])),
        Err(Error::ResolverCompilation("a\u{fffd}b".to_string()))
    );
}

#[test]
fn builder_looks_into_the_cache_first() {
    let path = calc_program_path("/tmp", "/lib/ld.so", "cc");
    assert_eq!(
        ensure_helper("/tmp", "/lib/ld.so", "cc", None, None),
        HelperStep::CheckCache { path }
    );
}

#[test]
fn builder_reuses_a_cached_helper() {
    let path = calc_program_path("/tmp", "/lib/ld.so", "cc");
    assert_eq!(
        ensure_helper("/tmp", "/lib/ld.so", "cc", Some(true), None),
        HelperStep::Ready { program_path: path.clone() }
    );
    // Even a failed compiler run is not looked at once the helper is there.
    let failed = output(false, b"", b"boom");
    assert_eq!(
        ensure_helper("/tmp", "/lib/ld.so", "cc", Some(true), Some(&failed)),
        HelperStep::Ready { program_path: path }
    );
}

#[test]
fn builder_compiles_a_missing_helper() {
    let path = calc_program_path("/tmp", "/lib/ld.so", "/usr/bin/cc");
    assert_eq!(
        ensure_helper("/tmp", "/lib/ld.so", "/usr/bin/cc", Some(false), None),
        HelperStep::Compile { compiler: "/usr/bin/cc".to_string(), program_path: path }
    );
}

#[test]
fn builder_is_ready_after_a_successful_compilation() {
    let path = calc_program_path("/tmp", "/lib/ld.so", "cc");
    let compiled = output(true, b"", b"");
    assert_eq!(
        ensure_helper("/tmp", "/lib/ld.so", "cc", Some(false), Some(&compiled)),
        HelperStep::Ready { program_path: path }
    );
}

#[test]
fn builder_fails_after_a_failed_compilation() {
    let compiled = output(false, b"", b"cc: fatal error: no input files");
    assert_eq!(
        ensure_helper("/tmp", "/lib/ld.so", "cc", Some(false), Some(&compiled)),
        HelperStep::Failed(Error::ResolverCompilation(
            "cc: fatal error: no input files".to_string()
        ))
    );
}

#[test]
fn second_call_of_the_builder_does_not_compile() {
    // A cache that starts empty: the first call compiles, the second finds
    // what the first left and compiles nothing.
    let mut cache: Vec<String> = Vec::new();
    let mut compilations = 0u32;
    let mut paths: Vec<String> = Vec::new();
    for _ in 0..2 {
        let mut cached: Option<bool> = None;
        let mut compiled: Option<CommandOutput> = None;
        loop {
            match ensure_helper("/tmp", "/lib/ld.so", "cc", cached, compiled.as_ref()) {
                HelperStep::CheckCache { path } => cached = Some(cache.contains(&path)),
                HelperStep::Compile { program_path, .. } => {
                    compilations += 1;
                    cache.push(program_path);
                    compiled = Some(output(true, b"", b""));
                }
                HelperStep::Ready { program_path } => {
                    paths.push(program_path);
                    break;
                }
                HelperStep::Failed(error) => panic!("{:?}", error),
            }
        }
    }
    assert_eq!(compilations, 1);
    assert_eq!(paths[0], paths[1]);
}
