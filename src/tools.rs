//! The external programs each job runs, with the exact arguments they get.
use crate::asset::AssetKind;
use crate::paths::{is_plain_file_name, is_plain_name, is_contained, join, join_path, stays_inside, with_extension, replace_extension};
use crate::platform::{platform_name, Platform};
use crate::resources::{fetch, resource_path, Resource};
use vstd::prelude::*;

verus! {

/// What a compile request says about the program being packaged.
pub struct Metadata {
    pub title: String,
    pub author: String,
    pub version: String,
    pub description: String,
    pub targets: Vec<String>,
}

/// One run of an external program.
pub struct ToolCall {
    pub program: String,
    pub args: Vec<String>,
}

/// Why a job could not be planned or did not produce its output.
#[derive(Clone, Copy, Debug, PartialEq, Eq, Structural)]
pub enum JobError {
    /// A name or path of the request would leave the job's directory.
    UnsafePath,
    /// The upload is not an asset that converts.
    InvalidAsset,
    /// The conversion program failed or wrote nothing.
    ConversionFailed,
    /// A packaging program failed or wrote nothing; a toolchain resource
    /// that is missing on disk shows up this way too.
    PackagingFailed,
    /// The target does not name a platform.
    UnknownTarget,
}

/// The texts of a list of strings.
pub open spec fn texts(v: Seq<String>) -> Seq<Seq<char>> {
    v.map_values(|s: String| s@)
}

/// A program and its arguments, as texts.
pub open spec fn call_view(c: ToolCall) -> (Seq<char>, Seq<Seq<char>>) {
    (c.program@, texts(c.args@))
}

/// The extension a converted asset gets.
pub open spec fn converted_extension(kind: AssetKind) -> Seq<char> {
    match kind {
        AssetKind::Image => "t3x"@,
        AssetKind::Font => "bcfnt"@,
    }
}

/// The program run to convert an asset of `kind` from `input` to `output`.
pub open spec fn conversion_call(kind: AssetKind, input: Seq<char>, output: Seq<char>) -> (Seq<char>, Seq<Seq<char>>) {
    match kind {
        AssetKind::Image => ("tex3ds"@, seq!["-f"@, "rgba"@, input, "-o"@, output]),
        AssetKind::Font => ("mkbcfnt"@, seq![input, "-o"@, output]),
    }
}

/// How one uploaded asset is converted.
pub struct ConversionPlan {
    /// Where the upload is written before conversion.
    pub input: String,
    /// Where the converter writes its output.
    pub output: String,
    /// The output's path below the request's artifact directory.
    pub relative_output: String,
    pub call: ToolCall,
}

/// `p` converts `file_name`, uploaded as a `kind` asset for `subpath`
/// below the request directory `root`.
pub open spec fn is_conversion_plan(p: ConversionPlan, kind: AssetKind, root: Seq<char>, subpath: Seq<char>, file_name: Seq<char>) -> bool {
    let dir = join(root, subpath);
    let out_name = with_extension(file_name, converted_extension(kind));
    &&& p.input@ == join(dir, file_name)
    &&& p.output@ == join(dir, out_name)
    &&& p.relative_output@ == join(subpath, out_name)
    &&& call_view(p.call) == conversion_call(kind, p.input@, p.output@)
}

/// Plans the conversion of `file_name`, uploaded for `subpath` below the
/// request directory `root`.
pub fn plan_conversion(kind: AssetKind, root: &str, subpath: &str, file_name: &str) -> (r: Result<ConversionPlan, JobError>)
    ensures
        r is Err <==> !(stays_inside(subpath@) && is_plain_name(file_name@)),
        r is Err ==> r == Err::<ConversionPlan, JobError>(JobError::UnsafePath),
        r matches Ok(p) ==> is_conversion_plan(p, kind, root@, subpath@, file_name@),
{
    if !is_contained(subpath) || !is_plain_file_name(file_name) {
        return Err(JobError::UnsafePath);
    }
    let ext = match kind {
        AssetKind::Image => "t3x",
        AssetKind::Font => "bcfnt",
    };
    let dir = join_path(root, subpath);
    let out_name = replace_extension(file_name, ext);
    let input = join_path(dir.as_str(), file_name);
    let output = join_path(dir.as_str(), out_name.as_str());
    let relative_output = join_path(subpath, out_name.as_str());
    let mut args: Vec<String> = Vec::new();
    let program = match kind {
        AssetKind::Image => {
            args.push(String::from_str("-f"));
            args.push(String::from_str("rgba"));
            String::from_str("tex3ds")
        },
        AssetKind::Font => String::from_str("mkbcfnt"),
    };
    args.push(input.clone());
    args.push(String::from_str("-o"));
    args.push(output.clone());
    let call = ToolCall { program, args };
    assert(call_view(call) =~= conversion_call(kind, input@, output@)) by {
        assert(texts(call.args@) =~= conversion_call(kind, input@, output@).1);
    }
    Ok(ConversionPlan { input, output, relative_output, call })
}

/// The extension of the packaged binary for a platform.
pub open spec fn binary_extension(p: Platform) -> Seq<char> {
    match p {
        Platform::Ctr => ".3dsx"@,
        Platform::Hac => ".nro"@,
        Platform::Cafe => ".wuhb"@,
    }
}

/// The extension of the intermediate file a platform's first step writes.
pub open spec fn intermediate_extension(p: Platform) -> Seq<char> {
    match p {
        Platform::Ctr => ".smdh"@,
        Platform::Hac => ".nacp"@,
        Platform::Cafe => ".rpx"@,
    }
}

/// The two programs that package a build for `p` in directory `dir`:
/// the first writes `mid`, the second reads it and writes `out`.
pub open spec fn compile_calls(
    p: Platform,
    title: Seq<char>,
    author: Seq<char>,
    version: Seq<char>,
    description: Seq<char>,
    icon: Seq<char>,
    elf: Seq<char>,
    romfs: Seq<char>,
    mid: Seq<char>,
    out: Seq<char>,
) -> Seq<(Seq<char>, Seq<Seq<char>>)> {
    match p {
        Platform::Ctr => seq![
            ("smdhtool"@, seq!["--create"@, title, description, author, icon, mid]),
            ("3dsxtool"@, seq![elf, out, "--smdh="@ + mid, "--romfs="@ + romfs]),
        ],
        Platform::Hac => seq![
            ("nacptool"@, seq!["--create"@, title, author, version, mid]),
            ("elf2nro"@, seq![elf, out, "--icon="@ + icon, "--nacp="@ + mid, "--romfs="@ + romfs]),
        ],
        Platform::Cafe => seq![
            ("elf2rpl"@, seq![elf, mid]),
            (
                "wuhbtool"@,
                seq![
                    mid,
                    out,
                    "--content="@ + romfs,
                    "--name="@ + title,
                    "--short-name="@ + title,
                    "--author="@ + author,
                    "--icon="@ + icon,
                ],
            ),
        ],
    }
}

/// How one target's binary is packaged.
pub struct CompilePlan {
    /// The job's own working directory.
    pub directory: String,
    /// Where the job writes the platform's icon.
    pub icon: String,
    /// Where the last step writes the packaged binary.
    pub output: String,
    /// The binary's path below the request's artifact directory.
    pub relative_output: String,
    /// The programs to run, in order.
    pub steps: Vec<ToolCall>,
}

/// The views of a list of calls.
pub open spec fn calls_view(v: Seq<ToolCall>) -> Seq<(Seq<char>, Seq<Seq<char>>)> {
    v.map_values(|c: ToolCall| call_view(c))
}

fn text(s: &str) -> (r: String)
    ensures
        r@ == s@,
{
    String::from_str(s)
}

fn concat(a: &str, b: &str) -> (r: String)
    ensures
        r@ == a@ + b@,
{
    let mut r = String::from_str(a);
    r.append(b);
    r
}

/// `p` packages `metadata` for `platform` below the request directory `root`.
pub open spec fn is_compile_plan(p: CompilePlan, platform: Platform, root: Seq<char>, metadata: Metadata) -> bool {
    let dir = join(root, platform_name(platform));
    let title = metadata.title@;
    &&& p.directory@ == dir
    &&& p.icon@ == join(dir, "icon.bin"@)
    &&& p.output@ == join(dir, title + binary_extension(platform))
    &&& p.relative_output@ == join(platform_name(platform), title + binary_extension(platform))
    &&& calls_view(p.steps@) == compile_calls(
        platform,
        title,
        metadata.author@,
        metadata.version@,
        metadata.description@,
        p.icon@,
        resource_path(platform, Resource::ElfBinary),
        resource_path(platform, Resource::RomFS),
        join(dir, title + intermediate_extension(platform)),
        p.output@,
    )
}

/// Plans the packaging of `metadata` for `platform` in the directory named
/// after the platform below the request directory `root`.
pub fn plan_compile(platform: Platform, root: &str, metadata: &Metadata) -> (r: Result<CompilePlan, JobError>)
    ensures
        !is_plain_name(metadata.title@) ==> r == Err::<CompilePlan, JobError>(JobError::UnsafePath),
        r is Ok <==> is_plain_name(metadata.title@),
        r matches Ok(p) ==> is_compile_plan(p, platform, root@, *metadata),
{
    if !is_plain_file_name(metadata.title.as_str()) {
        return Err(JobError::UnsafePath);
    }
    let elf = fetch(&platform, Resource::ElfBinary);
    let romfs = fetch(&platform, Resource::RomFS);
    let name = platform.name();
    let title = metadata.title.as_str();
    let directory = join_path(root, name.as_str());
    let icon = join_path(directory.as_str(), "icon.bin");
    let (out_ext, mid_ext) = match platform {
        Platform::Ctr => (".3dsx", ".smdh"),
        Platform::Hac => (".nro", ".nacp"),
        Platform::Cafe => (".wuhb", ".rpx"),
    };
    let out_file = concat(title, out_ext);
    let mid_file = concat(title, mid_ext);
    let output = join_path(directory.as_str(), out_file.as_str());
    let mid = join_path(directory.as_str(), mid_file.as_str());
    let relative_output = join_path(name.as_str(), out_file.as_str());
    let author = metadata.author.as_str();
    let mut first: Vec<String> = Vec::new();
    let mut second: Vec<String> = Vec::new();
    let (p1, p2) = match platform {
        Platform::Ctr => {
            first.push(text("--create"));
            first.push(text(title));
            first.push(text(metadata.description.as_str()));
            first.push(text(author));
            first.push(icon.clone());
            first.push(mid.clone());
            second.push(elf.clone());
            second.push(output.clone());
            second.push(concat("--smdh=", mid.as_str()));
            second.push(concat("--romfs=", romfs.as_str()));
            (text("smdhtool"), text("3dsxtool"))
        },
        Platform::Hac => {
            first.push(text("--create"));
            first.push(text(title));
            first.push(text(author));
            first.push(text(metadata.version.as_str()));
            first.push(mid.clone());
            second.push(elf.clone());
            second.push(output.clone());
            second.push(concat("--icon=", icon.as_str()));
            second.push(concat("--nacp=", mid.as_str()));
            second.push(concat("--romfs=", romfs.as_str()));
            (text("nacptool"), text("elf2nro"))
        },
        Platform::Cafe => {
            first.push(elf.clone());
            first.push(mid.clone());
            second.push(mid.clone());
            second.push(output.clone());
            second.push(concat("--content=", romfs.as_str()));
            second.push(concat("--name=", title));
            second.push(concat("--short-name=", title));
            second.push(concat("--author=", author));
            second.push(concat("--icon=", icon.as_str()));
            (text("elf2rpl"), text("wuhbtool"))
        },
    };
    let c1 = ToolCall { program: p1, args: first };
    let c2 = ToolCall { program: p2, args: second };
    let ghost expected = compile_calls(
        platform,
        metadata.title@,
        metadata.author@,
        metadata.version@,
        metadata.description@,
        icon@,
        elf@,
        romfs@,
        mid@,
        output@,
    );
    assert(call_view(c1) =~= expected[0]) by {
        assert(texts(c1.args@) =~= expected[0].1);
    }
    assert(call_view(c2) =~= expected[1]) by {
        assert(texts(c2.args@) =~= expected[1].1);
    }
    let mut steps: Vec<ToolCall> = Vec::new();
    steps.push(c1);
    steps.push(c2);
    assert(calls_view(steps@) =~= expected);
    Ok(CompilePlan { directory, icon, output, relative_output, steps })
}

} // verus!
