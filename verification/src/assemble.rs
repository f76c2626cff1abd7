//! The template assembler: composes the document texts of one target from a
//! base block and conditional fragments, in a fixed order, and returns them
//! as an ordered batch of artifacts.
//!
//! Artifact order is fixed: the directives file `rd.xml` first, then the
//! package-source file `nuget.config` (present exactly when ahead-of-time
//! compilation is enabled), then the project descriptor. Within the project
//! descriptor the fragment order is fixed as well: header, ahead-of-time
//! support, cleanup, footer. A fragment whose condition does not hold leaves
//! no trace in the output.

use vstd::prelude::*;

use crate::artifact::{ArtifactModel, OutputArtifact};
use crate::options::{supported, OptionModel, OptionSet, Runtime};
use crate::target::{wasm_file, wasm_path, BuildTarget, TargetModel};

verus! {

pub const RD_XML_PATH: &'static str = "rd.xml";

pub const NUGET_CONFIG_PATH: &'static str = "nuget.config";

pub const DESCRIPTOR_EXT: &'static str = ".csproj";

pub const RD_XML_BEFORE_NAME: &'static str = r#"<Directives xmlns="http://schemas.microsoft.com/netfx/2013/01/metadata">
            <Application>
                <Assembly Name=""#;

pub const RD_XML_AFTER_NAME: &'static str = r#"">
                </Assembly>
            </Application>
        </Directives>"#;

pub const NUGET_CONFIG_TEXT: &'static str = r#"<?xml version="1.0" encoding="utf-8"?>
            <configuration>
                <config>
                    <add key="globalPackagesFolder" value=".packages" />
                </config>
                <packageSources>
                <!--To inherit the global NuGet package sources remove the <clear/> line below -->
                <clear />
                <add key="nuget" value="https://api.nuget.org/v3/index.json" />
                <add key="dotnet-experimental" value="https://pkgs.dev.azure.com/dnceng/public/_packaging/dotnet-experimental/nuget/v3/index.json" />
                <!--<add key="dotnet-experimental" value="C:\github\runtimelab\artifacts\packages\Debug\Shipping" />-->
              </packageSources>
            </configuration>"#;

pub const NATIVE_BEFORE_NAMESPACE: &'static str = r#"<Project Sdk="Microsoft.NET.Sdk">
    
        <PropertyGroup>
            <TargetFramework>net8.0</TargetFramework>
            <LangVersion>preview</LangVersion>
            <RootNamespace>"#;

pub const NATIVE_BEFORE_ASSEMBLY: &'static str = r#"</RootNamespace>
            <ImplicitUsings>enable</ImplicitUsings>
            <Nullable>enable</Nullable>
            <AllowUnsafeBlocks>true</AllowUnsafeBlocks>
        </PropertyGroup>
        
        <PropertyGroup>
            <PublishTrimmed>true</PublishTrimmed>
            <AssemblyName>"#;

pub const NATIVE_BEFORE_WORLD: &'static str = r#"</AssemblyName>
        </PropertyGroup>
        <ItemGroup>
          <NativeLibrary Include=""#;

pub const NATIVE_BEFORE_REALLOC: &'static str = r#"_component_type.o" />
          <NativeLibrary Include="$(MSBuildProjectDirectory)/"#;

pub const NATIVE_AFTER_REALLOC: &'static str = r#"_cabi_realloc.o" />
   
        </ItemGroup>

        <ItemGroup>
            <RdXmlFile Include="rd.xml" />
        </ItemGroup>
        "#;

pub const MANAGED_BEFORE_NAMESPACE: &'static str = r#"<Project Sdk="Microsoft.NET.Sdk">
    
        <PropertyGroup>
            <TargetFramework>net9.0</TargetFramework>
            <RuntimeIdentifier>wasi-wasm</RuntimeIdentifier>

            <TargetOs>wasi</TargetOs>
            
            <WasmNativeStrip>false</WasmNativeStrip>
            <IsBrowserWasmProject>false</IsBrowserWasmProject>
            <WasmSingleFileBundle>true</WasmSingleFileBundle>

            <RootNamespace>"#;

pub const MANAGED_BEFORE_ASSEMBLY: &'static str = r#"</RootNamespace>
            <ImplicitUsings>enable</ImplicitUsings>
            <Nullable>enable</Nullable>
            <AllowUnsafeBlocks>true</AllowUnsafeBlocks>
        </PropertyGroup>
        
        <PropertyGroup>
            <PublishTrimmed>true</PublishTrimmed>
            <AssemblyName>"#;

pub const MANAGED_BEFORE_WORLD: &'static str = r#"</AssemblyName>
        </PropertyGroup>

        <ItemGroup>
          <NativeLibrary Include=""#;

pub const MANAGED_AFTER_WORLD: &'static str = r#"_component_type.o" />
        </ItemGroup>

        <ItemGroup>
            <RdXmlFile Include="rd.xml" />
        </ItemGroup>
        "#;

pub const AOT_LINKER_ARGS: &'static str = r#"
                <ItemGroup>
                    <CustomLinkerArg Include="-Wl,--export,_initialize" />
                    <CustomLinkerArg Include="-Wl,--no-entry" />
                    <CustomLinkerArg Include="-mexec-model=reactor" />
                </ItemGroup>
   
                <ItemGroup>
                    <PackageReference Include="Microsoft.DotNet.ILCompiler.LLVM" Version="9.0.0-*" />
                    <PackageReference Include="runtime.win-x64.Microsoft.DotNet.ILCompiler.LLVM" Version="9.0.0-*" />
                </ItemGroup>

                <Target Name="CheckWasmSdks">
                    <Error Text="Emscripten not found, not compiling to WebAssembly. To enable WebAssembly compilation, install Emscripten and ensure the EMSDK environment variable points to the directory containing upstream/emscripten/emcc.bat"
                        Condition="'$(EMSDK)' == ''" />
                </Target>
                "#;

pub const AOT_BEFORE_INPUT: &'static str = r#"
              <Target Name="CompileCabiRealloc" BeforeTargets="IlcCompile" DependsOnTargets="CheckWasmSdks" 
                Inputs="$(MSBuildProjectDirectory)/"#;

pub const AOT_BEFORE_OUTPUT: &'static str = r#"_cabi_realloc.c"
                Outputs="$(MSBuildProjectDirectory)/"#;

pub const AOT_BEFORE_CMD_INPUT: &'static str = r#"_cabi_realloc.o"
                >
                <Exec Command="emcc.bat &quot;$(MSBuildProjectDirectory)/"#;

pub const AOT_BEFORE_CMD_OUTPUT: &'static str = r#"_cabi_realloc.c&quot; -c -o &quot;$(MSBuildProjectDirectory)/"#;

pub const AOT_AFTER_CMD_OUTPUT: &'static str = r#"_cabi_realloc.o&quot;"/>
              </Target>
            "#;

pub const CLEANUP_BEFORE_PATH: &'static str = r#"<Target Name="CleanAndDelete"  AfterTargets="Clean">
                <!-- Remove obj folder -->
                <RemoveDir Directories="$(BaseIntermediateOutputPath)" />
                <!-- Remove bin folder -->
                <RemoveDir Directories="$(BaseOutputPath)" />
                <RemoveDir Directories=""#;

pub const CLEANUP_AFTER_PATH: &'static str = r#"" />
                <RemoveDir Directories=".packages" />
            </Target>"#;

pub const DESCRIPTOR_FOOTER: &'static str = r#"</Project>
            "#;

/// The text of the directives file, keyed by the normalized component name.
pub open spec fn rd_xml_text(name_camel: Seq<char>) -> Seq<char> {
    RD_XML_BEFORE_NAME@ + name_camel + RD_XML_AFTER_NAME@
}

/// The text of the package-source file: an isolated local package cache and
/// a closed list of upstream feeds.
pub open spec fn nuget_text() -> Seq<char> {
    NUGET_CONFIG_TEXT@
}

/// The header of a native-AOT project descriptor.
pub open spec fn native_header_text(t: TargetModel) -> Seq<char> {
    NATIVE_BEFORE_NAMESPACE@ + t.name.camel + NATIVE_BEFORE_ASSEMBLY@ + t.name.camel
        + NATIVE_BEFORE_WORLD@ + t.world.token + NATIVE_BEFORE_REALLOC@ + t.world.camel
        + NATIVE_AFTER_REALLOC@
}

/// The header of a managed-runtime project descriptor.
pub open spec fn managed_header_text(t: TargetModel) -> Seq<char> {
    MANAGED_BEFORE_NAMESPACE@ + t.name.camel + MANAGED_BEFORE_ASSEMBLY@ + t.name.camel
        + MANAGED_BEFORE_WORLD@ + t.world.token + MANAGED_AFTER_WORLD@
}

/// The descriptor header of the chosen runtime.
pub open spec fn header_text(t: TargetModel, runtime: Runtime) -> Seq<char> {
    match runtime {
        Runtime::NativeAot => native_header_text(t),
        Runtime::ManagedRuntime => managed_header_text(t),
    }
}

/// The ahead-of-time support fragment: linker arguments, compiler package
/// references, and the pre-build compile step with its declared input and
/// output files.
pub open spec fn aot_text(t: TargetModel) -> Seq<char> {
    AOT_LINKER_ARGS@ + AOT_BEFORE_INPUT@ + t.world.camel + AOT_BEFORE_OUTPUT@ + t.world.camel
        + AOT_BEFORE_CMD_INPUT@ + t.world.camel + AOT_BEFORE_CMD_OUTPUT@ + t.world.camel
        + AOT_AFTER_CMD_OUTPUT@
}

/// The cleanup fragment: removes the intermediate and output directories,
/// the output binary and the local package cache after a clean.
pub open spec fn cleanup_text(t: TargetModel) -> Seq<char> {
    CLEANUP_BEFORE_PATH@ + wasm_path(t) + CLEANUP_AFTER_PATH@
}

/// The kind of a descriptor fragment.
#[derive(Clone, Copy, Debug, PartialEq, Eq, Structural)]
pub enum FragmentKind {
    Header,
    AotSupport,
    Cleanup,
    Footer,
}

/// A fragment of the project descriptor: its kind and its text.
pub ghost struct FragmentModel {
    pub kind: FragmentKind,
    pub text: Seq<char>,
}

/// The fragments of the project descriptor, in their fixed order: header,
/// then ahead-of-time support when enabled, then cleanup when requested,
/// then footer.
pub open spec fn descriptor_fragments(t: TargetModel, o: OptionModel) -> Seq<FragmentModel> {
    let header = FragmentModel { kind: FragmentKind::Header, text: header_text(t, o.runtime) };
    let aot = FragmentModel { kind: FragmentKind::AotSupport, text: aot_text(t) };
    let cleanup = FragmentModel { kind: FragmentKind::Cleanup, text: cleanup_text(t) };
    let footer = FragmentModel { kind: FragmentKind::Footer, text: DESCRIPTOR_FOOTER@ };
    if o.aot && o.clean_targets {
        seq![header, aot, cleanup, footer]
    } else if o.aot {
        seq![header, aot, footer]
    } else if o.clean_targets {
        seq![header, cleanup, footer]
    } else {
        seq![header, footer]
    }
}

/// The text of the project descriptor: its fragments joined.
pub open spec fn descriptor_text(t: TargetModel, o: OptionModel) -> Seq<char> {
    header_text(t, o.runtime) + (if o.aot {
        aot_text(t)
    } else {
        Seq::<char>::empty()
    }) + (if o.clean_targets {
        cleanup_text(t)
    } else {
        Seq::<char>::empty()
    }) + DESCRIPTOR_FOOTER@
}

/// The file name of the project descriptor: the normalized world name with
/// the descriptor extension.
pub open spec fn descriptor_path(t: TargetModel) -> Seq<char> {
    t.world.camel + DESCRIPTOR_EXT@
}

/// The artifacts `assemble` produces, in their fixed order: the directives
/// file, the package-source file exactly when ahead-of-time compilation is
/// enabled, and the project descriptor.
pub open spec fn spec_artifacts(t: TargetModel, o: OptionModel) -> Seq<ArtifactModel> {
    let rd = ArtifactModel { path: RD_XML_PATH@, content: rd_xml_text(t.name.camel) };
    let nuget = ArtifactModel { path: NUGET_CONFIG_PATH@, content: nuget_text() };
    let descriptor = ArtifactModel { path: descriptor_path(t), content: descriptor_text(t, o) };
    if o.aot {
        seq![rd, nuget, descriptor]
    } else {
        seq![rd, descriptor]
    }
}

fn native_header(t: &BuildTarget) -> (r: String)
    ensures
        r@ == native_header_text(t@),
{
    let mut s = NATIVE_BEFORE_NAMESPACE.to_owned();
    s.append(t.name.camel.as_str());
    s.append(NATIVE_BEFORE_ASSEMBLY);
    s.append(t.name.camel.as_str());
    s.append(NATIVE_BEFORE_WORLD);
    s.append(t.world.token.as_str());
    s.append(NATIVE_BEFORE_REALLOC);
    s.append(t.world.camel.as_str());
    s.append(NATIVE_AFTER_REALLOC);
    s
}

fn managed_header(t: &BuildTarget) -> (r: String)
    ensures
        r@ == managed_header_text(t@),
{
    let mut s = MANAGED_BEFORE_NAMESPACE.to_owned();
    s.append(t.name.camel.as_str());
    s.append(MANAGED_BEFORE_ASSEMBLY);
    s.append(t.name.camel.as_str());
    s.append(MANAGED_BEFORE_WORLD);
    s.append(t.world.token.as_str());
    s.append(MANAGED_AFTER_WORLD);
    s
}

fn append_aot(doc: &mut String, t: &BuildTarget)
    ensures
        final(doc)@ == old(doc)@ + aot_text(t@),
{
    doc.append(AOT_LINKER_ARGS);
    doc.append(AOT_BEFORE_INPUT);
    doc.append(t.world.camel.as_str());
    doc.append(AOT_BEFORE_OUTPUT);
    doc.append(t.world.camel.as_str());
    doc.append(AOT_BEFORE_CMD_INPUT);
    doc.append(t.world.camel.as_str());
    doc.append(AOT_BEFORE_CMD_OUTPUT);
    doc.append(t.world.camel.as_str());
    doc.append(AOT_AFTER_CMD_OUTPUT);
}

fn append_cleanup(doc: &mut String, t: &BuildTarget)
    ensures
        final(doc)@ == old(doc)@ + cleanup_text(t@),
{
    doc.append(CLEANUP_BEFORE_PATH);
    let path = wasm_file(t);
    doc.append(path.as_str());
    doc.append(CLEANUP_AFTER_PATH);
}

/// Assembles the artifacts of one target under one option set.
/// Deterministic: the result is exactly `spec_artifacts` of the two models,
/// so equal inputs yield byte-identical output. The option set is validated
/// at construction, so the assembler never sees an unsupported combination.
pub fn assemble(target: &BuildTarget, options: &OptionSet) -> (arts: Vec<OutputArtifact>)
    requires
        supported(options@.runtime, options@.aot, options@.clean_targets),
    ensures
        arts@.map_values(|a: OutputArtifact| a@) == spec_artifacts(target@, options@),
{
    let mut arts: Vec<OutputArtifact> = Vec::new();

    let mut rd = RD_XML_BEFORE_NAME.to_owned();
    rd.append(target.name.camel.as_str());
    rd.append(RD_XML_AFTER_NAME);
    arts.push(OutputArtifact { relative_path: RD_XML_PATH.to_owned(), content: rd });

    if options.aot() {
        arts.push(
            OutputArtifact {
                relative_path: NUGET_CONFIG_PATH.to_owned(),
                content: NUGET_CONFIG_TEXT.to_owned(),
            },
        );
    }

    let mut doc = match options.runtime() {
        Runtime::NativeAot => native_header(target),
        Runtime::ManagedRuntime => managed_header(target),
    };
    if options.aot() {
        append_aot(&mut doc, target);
    }
    if options.clean_targets() {
        append_cleanup(&mut doc, target);
    }
    doc.append(DESCRIPTOR_FOOTER);

    let mut descriptor_name = target.world.camel.clone();
    descriptor_name.append(DESCRIPTOR_EXT);
    arts.push(OutputArtifact { relative_path: descriptor_name, content: doc });

    proof {
        assert(arts@.map_values(|a: OutputArtifact| a@) =~~= spec_artifacts(target@, options@));
    }
    arts
}

/// The texts of a fragment sequence, joined in order.
pub open spec fn texts_of(fs: Seq<FragmentModel>) -> Seq<char>
    decreases fs.len(),
{
    if fs.len() == 0 {
        Seq::empty()
    } else {
        fs.first().text + texts_of(fs.drop_first())
    }
}

proof fn lemma_texts_of_cons(f: FragmentModel, rest: Seq<FragmentModel>)
    ensures
        texts_of(seq![f] + rest) == f.text + texts_of(rest),
{
    let s = seq![f] + rest;
    assert(s.first() == f);
    assert(s.drop_first() =~= rest);
}

/// Law: the project descriptor is exactly its fragments joined in their
/// fixed order.
pub proof fn lemma_descriptor_text_joins_fragments(t: TargetModel, o: OptionModel)
    ensures
        descriptor_text(t, o) == texts_of(descriptor_fragments(t, o)),
{
    let header = FragmentModel { kind: FragmentKind::Header, text: header_text(t, o.runtime) };
    let aot = FragmentModel { kind: FragmentKind::AotSupport, text: aot_text(t) };
    let cleanup = FragmentModel { kind: FragmentKind::Cleanup, text: cleanup_text(t) };
    let footer = FragmentModel { kind: FragmentKind::Footer, text: DESCRIPTOR_FOOTER@ };
    let none: Seq<FragmentModel> = Seq::empty();
    assert(texts_of(none) == Seq::<char>::empty());
    assert(seq![footer] =~= seq![footer] + none);
    lemma_texts_of_cons(footer, none);
    lemma_texts_of_cons(cleanup, seq![footer]);
    lemma_texts_of_cons(aot, seq![footer]);
    lemma_texts_of_cons(aot, seq![cleanup] + seq![footer]);
    lemma_texts_of_cons(header, seq![footer]);
    lemma_texts_of_cons(header, seq![aot] + seq![footer]);
    lemma_texts_of_cons(header, seq![cleanup] + seq![footer]);
    lemma_texts_of_cons(header, seq![aot] + (seq![cleanup] + seq![footer]));
    if o.aot && o.clean_targets {
        assert(descriptor_fragments(t, o) =~= seq![header] + (seq![aot] + (seq![cleanup]
            + seq![footer])));
        assert(seq![aot] + (seq![cleanup] + seq![footer]) =~= seq![aot] + seq![cleanup]
            + seq![footer]);
        assert(descriptor_text(t, o) =~= texts_of(descriptor_fragments(t, o)));
    } else if o.aot {
        assert(descriptor_fragments(t, o) =~= seq![header] + (seq![aot] + seq![footer]));
        assert(descriptor_text(t, o) =~= texts_of(descriptor_fragments(t, o)));
    } else if o.clean_targets {
        assert(descriptor_fragments(t, o) =~= seq![header] + (seq![cleanup] + seq![footer]));
        assert(descriptor_text(t, o) =~= texts_of(descriptor_fragments(t, o)));
    } else {
        assert(descriptor_fragments(t, o) =~= seq![header] + seq![footer]);
        assert(descriptor_text(t, o) =~= texts_of(descriptor_fragments(t, o)));
    }
}

/// Whether `needle` occurs contiguously in `hay`.
pub open spec fn contains_seq(hay: Seq<char>, needle: Seq<char>) -> bool {
    exists|i: int|
        0 <= i && i + needle.len() <= hay.len() && (#[trigger] hay.subrange(i, i + needle.len()))
            == needle
}

/// Law: requesting cleanup puts exactly one cleanup fragment into the
/// project descriptor, and that fragment references the target's output
/// directory; without the request, none is present.
pub proof fn lemma_cleanup_fragment(t: TargetModel, o: OptionModel)
    ensures
        o.clean_targets ==> exists|i: int|
            0 <= i < descriptor_fragments(t, o).len() && (#[trigger] descriptor_fragments(
                t,
                o,
            )[i]).kind is Cleanup,
        forall|i: int, j: int|
            (0 <= i < descriptor_fragments(t, o).len() && 0 <= j < descriptor_fragments(t, o).len()
                && (#[trigger] descriptor_fragments(t, o)[i]).kind is Cleanup
                && (#[trigger] descriptor_fragments(t, o)[j]).kind is Cleanup) ==> i == j,
        forall|i: int|
            (0 <= i < descriptor_fragments(t, o).len() && (#[trigger] descriptor_fragments(
                t,
                o,
            )[i]).kind is Cleanup) ==> descriptor_fragments(t, o)[i].text == cleanup_text(t),
        !o.clean_targets ==> forall|i: int|
            0 <= i < descriptor_fragments(t, o).len() ==> !((#[trigger] descriptor_fragments(
                t,
                o,
            )[i]).kind is Cleanup),
        contains_seq(cleanup_text(t), t.dir),
{
    let fs = descriptor_fragments(t, o);
    if o.clean_targets {
        if o.aot {
            assert(fs[2].kind is Cleanup);
        } else {
            assert(fs[1].kind is Cleanup);
        }
    }
    let hay = cleanup_text(t);
    let n = t.dir.len() as int;
    let i: int = if t.dir.len() == 0 {
        0
    } else {
        CLEANUP_BEFORE_PATH@.len() as int
    };
    assert(hay.subrange(i, i + n) =~= t.dir);
    assert(0 <= i && i + t.dir.len() <= hay.len() && hay.subrange(i, i + t.dir.len()) == t.dir);
}

/// Law: with ahead-of-time compilation disabled, the package-source file is
/// not among the artifacts — exactly the directives file and the project
/// descriptor are — and no ahead-of-time fragment stands in the project
/// descriptor.
pub proof fn lemma_aot_disabled(t: TargetModel, o: OptionModel)
    requires
        !o.aot,
    ensures
        spec_artifacts(t, o).len() == 2,
        spec_artifacts(t, o)[0].path == RD_XML_PATH@,
        spec_artifacts(t, o)[1].path == descriptor_path(t),
        forall|i: int|
            0 <= i < spec_artifacts(t, o).len() ==> (#[trigger] spec_artifacts(t, o)[i]).path
                != NUGET_CONFIG_PATH@,
        forall|i: int|
            0 <= i < descriptor_fragments(t, o).len() ==> !((#[trigger] descriptor_fragments(
                t,
                o,
            )[i]).kind is AotSupport),
{
    reveal_strlit("rd.xml");
    reveal_strlit("nuget.config");
    reveal_strlit(".csproj");
    assert(RD_XML_PATH@.len() == 6);
    assert(NUGET_CONFIG_PATH@.len() == 12);
    let p = descriptor_path(t);
    if p.len() == NUGET_CONFIG_PATH@.len() {
        assert(t.world.camel.len() == 5);
        assert(p[11] == 'j');
        assert(NUGET_CONFIG_PATH@[11] == 'g');
    }
}

/// Law: assembly is reproducible — two artifact batches assembled from the
/// same target and option models are identical, byte for byte.
pub proof fn lemma_assemble_reproducible(
    t: TargetModel,
    o: OptionModel,
    a: Seq<ArtifactModel>,
    b: Seq<ArtifactModel>,
)
    requires
        a == spec_artifacts(t, o),
        b == spec_artifacts(t, o),
    ensures
        a == b,
{
}

} // verus!
