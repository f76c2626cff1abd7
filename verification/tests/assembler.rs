//! Tests of the template assembler, through the builders and directly.

use csproj::assemble::assemble;
use csproj::options::{OptionSet, Runtime};
use csproj::project::CSProject;
use csproj::target::BuildTarget;

fn count_occurrences(hay: &str, needle: &str) -> usize {
    hay.matches(needle).count()
}

#[test]
fn assemble_is_reproducible() {
    for &runtime in &[Runtime::NativeAot, Runtime::ManagedRuntime] {
        for &aot in &[false, true] {
            for &clean in &[false, true] {
                if runtime == Runtime::ManagedRuntime && aot {
                    continue;
                }
                let t = BuildTarget::new("out", "my-component", "my-world").unwrap();
                let o = OptionSet::new(runtime, aot, clean).unwrap();
                let first = assemble(&t, &o);
                let second = assemble(&t, &o);
                assert_eq!(first, second);
            }
        }
    }
}

#[test]
fn plain_native_set_has_exactly_two_files() {
    let builder = CSProject::new("out".to_string(), "my-component", "my-world");
    let arts = builder.artifacts().unwrap();
    assert_eq!(arts.len(), 2);
    assert_eq!(arts[0].relative_path, "rd.xml");
    assert_eq!(arts[1].relative_path, "MyWorld.csproj");

    let descriptor = &arts[1].content;
    assert!(descriptor.contains("my_world_component_type.o"));
    assert!(descriptor.contains("$(MSBuildProjectDirectory)/MyWorld_cabi_realloc.o"));
    assert!(descriptor.contains("<RootNamespace>MyComponent</RootNamespace>"));
    assert!(descriptor.contains("<AssemblyName>MyComponent</AssemblyName>"));
    assert!(descriptor.contains("<TargetFramework>net8.0</TargetFramework>"));
    assert!(descriptor.starts_with("<Project Sdk=\"Microsoft.NET.Sdk\">"));
    assert!(descriptor.trim_end().ends_with("</Project>"));

    // No ahead-of-time or package block leaves a trace.
    assert!(!descriptor.contains("CustomLinkerArg"));
    assert!(!descriptor.contains("PackageReference"));
    assert!(!descriptor.contains("CompileCabiRealloc"));
    assert!(!descriptor.contains("CleanAndDelete"));
}

#[test]
fn rd_xml_text_is_exact() {
    let builder = CSProject::new("out".to_string(), "my-component", "my-world");
    let arts = builder.artifacts().unwrap();
    let expected = "<Directives xmlns=\"http://schemas.microsoft.com/netfx/2013/01/metadata\">\n            <Application>\n                <Assembly Name=\"MyComponent\">\n                </Assembly>\n            </Application>\n        </Directives>";
    assert_eq!(arts[0].content, expected);
}

#[test]
fn aot_adds_package_source_and_compile_step() {
    let mut builder = CSProject::new("out".to_string(), "my-component", "my-world");
    builder.aot();
    let arts = builder.artifacts().unwrap();
    assert_eq!(arts.len(), 3);
    assert_eq!(arts[0].relative_path, "rd.xml");
    assert_eq!(arts[1].relative_path, "nuget.config");
    assert_eq!(arts[2].relative_path, "MyWorld.csproj");

    let nuget = &arts[1].content;
    assert!(nuget.contains("<add key=\"globalPackagesFolder\" value=\".packages\" />"));
    assert!(nuget.contains("<clear />"));
    assert!(nuget.contains("https://api.nuget.org/v3/index.json"));

    let descriptor = &arts[2].content;
    assert!(descriptor.contains("<CustomLinkerArg Include=\"-Wl,--export,_initialize\" />"));
    assert!(descriptor.contains("<CustomLinkerArg Include=\"-Wl,--no-entry\" />"));
    assert!(descriptor.contains("<CustomLinkerArg Include=\"-mexec-model=reactor\" />"));
    assert!(descriptor.contains("Microsoft.DotNet.ILCompiler.LLVM"));
    assert!(descriptor.contains("<Target Name=\"CompileCabiRealloc\""));
    assert!(descriptor.contains("Inputs=\"$(MSBuildProjectDirectory)/MyWorld_cabi_realloc.c\""));
    assert!(descriptor.contains("Outputs=\"$(MSBuildProjectDirectory)/MyWorld_cabi_realloc.o\""));
}

#[test]
fn aot_disabled_leaves_no_package_source_anywhere() {
    for &runtime in &[Runtime::NativeAot, Runtime::ManagedRuntime] {
        for &clean in &[false, true] {
            let t = BuildTarget::new("out", "my-component", "my-world").unwrap();
            let o = OptionSet::new(runtime, false, clean).unwrap();
            let arts = assemble(&t, &o);
            assert_eq!(arts.len(), 2);
            assert!(arts.iter().all(|a| a.relative_path != "nuget.config"));
            assert!(!arts[1].content.contains("CustomLinkerArg"));
            assert!(!arts[1].content.contains("CompileCabiRealloc"));
            assert!(!arts[1].content.contains("ILCompiler"));
        }
    }
}

#[test]
fn cleanup_block_appears_exactly_once_and_names_the_directory() {
    let mut builder = CSProject::new("out".to_string(), "my-component", "my-world");
    builder.clean();
    let arts = builder.artifacts().unwrap();
    let descriptor = &arts[1].content;
    assert_eq!(count_occurrences(descriptor, "<Target Name=\"CleanAndDelete\""), 1);
    assert!(descriptor.contains("<RemoveDir Directories=\"out/MyComponent.wasm\" />"));
    assert!(descriptor.contains("<RemoveDir Directories=\"$(BaseIntermediateOutputPath)\" />"));
    assert!(descriptor.contains("<RemoveDir Directories=\"$(BaseOutputPath)\" />"));
    assert!(descriptor.contains("<RemoveDir Directories=\".packages\" />"));

    // Without the request, no cleanup block is present.
    let builder = CSProject::new("out".to_string(), "my-component", "my-world");
    let arts = builder.artifacts().unwrap();
    assert_eq!(count_occurrences(&arts[1].content, "CleanAndDelete"), 0);
}

#[test]
fn cleanup_path_respects_directory_form() {
    let mut builder = CSProject::new("out/".to_string(), "my-component", "my-world");
    builder.clean();
    let arts = builder.artifacts().unwrap();
    assert!(arts[1].content.contains("<RemoveDir Directories=\"out/MyComponent.wasm\" />"));

    let mut builder = CSProject::new(String::new(), "my-component", "my-world");
    builder.clean();
    let arts = builder.artifacts().unwrap();
    assert!(arts[1].content.contains("<RemoveDir Directories=\"MyComponent.wasm\" />"));
}

#[test]
fn builder_flags_chain_and_accumulate() {
    let mut builder = CSProject::new("out".to_string(), "my-component", "my-world");
    builder.clean().aot();
    let arts = builder.artifacts().unwrap();
    assert_eq!(arts.len(), 3);
    let descriptor = &arts[2].content;
    assert!(descriptor.contains("CompileCabiRealloc"));
    assert!(descriptor.contains("CleanAndDelete"));
    // Fixed fragment order: ahead-of-time support before cleanup.
    let aot_pos = descriptor.find("CustomLinkerArg").unwrap();
    let clean_pos = descriptor.find("CleanAndDelete").unwrap();
    assert!(aot_pos < clean_pos);
}

#[test]
fn managed_set_has_its_own_header() {
    let builder = CSProject::new_mono("out".to_string(), "my-component", "my-world");
    let arts = builder.artifacts().unwrap();
    assert_eq!(arts.len(), 2);
    assert_eq!(arts[0].relative_path, "rd.xml");
    assert_eq!(arts[1].relative_path, "MyWorld.csproj");

    let descriptor = &arts[1].content;
    assert!(descriptor.contains("<TargetFramework>net9.0</TargetFramework>"));
    assert!(descriptor.contains("<RuntimeIdentifier>wasi-wasm</RuntimeIdentifier>"));
    assert!(descriptor.contains("my_world_component_type.o"));
    assert!(!descriptor.contains("WasmBuildNative"));
    assert!(!descriptor.contains("_cabi_realloc"));
}

#[test]
fn managed_flavor_rejects_ahead_of_time() {
    let mut builder = CSProject::new_mono("out".to_string(), "my-component", "my-world");
    builder.aot();
    match builder.artifacts() {
        Err(csproj::errors::Error::UnsupportedCombination { flag }) => assert_eq!(flag, "aot"),
        other => panic!("expected UnsupportedCombination, got {:?}", other),
    }
}
