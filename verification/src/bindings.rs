//! What the binding generator is told: for which target, with which
//! arguments, about which headers.
//!
//! The functions here decide; finding the toolchain on the machine and
//! running the generator is left to the caller.

use vstd::prelude::*;
use vstd::string::StringExecFns;
use crate::error::{BuildError, BuildErrorView};
use crate::groups::Capabilities;
use crate::text::{
    chars_of, contains, joined, spec_contains, spec_pieces, spec_split, spec_starts_with,
    spec_texts, spec_trim, split, starts_with, string_of, trim,
};

verus! {

/// The kinds of target that a build distinguishes.
#[derive(Debug, Clone, Copy, PartialEq, Eq, Structural)]
pub enum TargetFamily {
    /// Arm targets: the triple mentions `thumb` or `arm`.
    Arm,
    /// The RISC-V targets of the ESP-IDF.
    RiscV,
    /// Any other target.
    Other,
}

/// The family of the target `target`.
pub open spec fn spec_target_family(target: Seq<char>) -> TargetFamily {
    if spec_contains(target, "thumb"@) || spec_contains(target, "arm"@) {
        TargetFamily::Arm
    } else if spec_contains(target, "riscv32imac-esp-espidf"@) || spec_contains(
        target,
        "riscv32imc-esp-espidf"@,
    ) {
        TargetFamily::RiscV
    } else {
        TargetFamily::Other
    }
}

/// The family of the target `target`.
pub fn target_family(target: &str) -> (r: TargetFamily)
    ensures
        r == spec_target_family(target@),
{
    let t = chars_of(target);
    if contains(&t, &chars_of("thumb")) || contains(&t, &chars_of("arm")) {
        TargetFamily::Arm
    } else if contains(&t, &chars_of("riscv32imac-esp-espidf")) || contains(
        &t,
        &chars_of("riscv32imc-esp-espidf"),
    ) {
        TargetFamily::RiscV
    } else {
        TargetFamily::Other
    }
}

/// The mathematical value of a [`Toolchain`].
pub enum ToolchainView {
    Arm { include_paths: Seq<Seq<char>> },
    RiscV { sysroot: Seq<char>, libgcc_dir: Option<Seq<char>> },
    Host,
}

/// What was found of the toolchain of the target.
#[derive(Debug, Clone, PartialEq, Eq)]
pub enum Toolchain {
    /// An Arm toolchain, with the directories of its system headers.
    Arm { include_paths: Vec<String> },
    /// A RISC-V toolchain, with its system root and, where it was found,
    /// the directory of its compiler support library.
    RiscV { sysroot: String, libgcc_dir: Option<String> },
    /// The toolchain of the machine that builds.
    Host,
}

impl View for Toolchain {
    type V = ToolchainView;

    open spec fn view(&self) -> ToolchainView {
        match self {
            Toolchain::Arm { include_paths } => ToolchainView::Arm {
                include_paths: spec_texts(include_paths@),
            },
            Toolchain::RiscV { sysroot, libgcc_dir } => ToolchainView::RiscV {
                sysroot: sysroot@,
                libgcc_dir: match libgcc_dir {
                    Some(d) => Some(d@),
                    None => None,
                },
            },
            Toolchain::Host => ToolchainView::Host,
        }
    }
}

/// The arguments that select the target and its system headers.
pub open spec fn spec_target_arguments(toolchain: ToolchainView) -> Seq<Seq<char>> {
    match toolchain {
        ToolchainView::Arm { include_paths } => seq![
            "--target=thumbv7em-none-eabihf"@,
            "-mthumb"@,
            "-mcpu=cortex-m4"@,
            "-mfloat-abi=hard"@,
            "-mfpu=fpv4-sp-d16"@,
            "-D__GNUC__"@,
            "-D__STDC__=1"@,
            "-D__ARM_ARCH_7EM__=1"@,
        ] + Seq::new(include_paths.len(), |i: int| "-isystem"@ + include_paths[i]),
        ToolchainView::RiscV { sysroot, libgcc_dir } => seq![
            "--target=riscv32"@,
            "--sysroot="@ + sysroot,
            "-I"@ + sysroot + "/include"@,
            "-I"@ + sysroot + "/riscv32-esp-elf/include"@,
        ] + (match libgcc_dir {
            Some(d) => seq!["-I"@ + d + "/include"@, "-I"@ + d + "/include-fixed"@],
            None => Seq::empty(),
        }),
        ToolchainView::Host => Seq::empty(),
    }
}

/// The arguments for the binding generator: those of the target, then the
/// directory of the SDK's headers.
pub open spec fn spec_clang_arguments(toolchain: ToolchainView, headers: Seq<char>) -> Seq<
    Seq<char>,
> {
    spec_target_arguments(toolchain) + seq!["-I"@ + headers]
}

/// The text `lead`, then `middle`, then `tail`.
fn joined3(lead: &str, middle: &str, tail: &str) -> (s: String)
    ensures
        s@ == lead@ + middle@ + tail@,
{
    let mut s = lead.to_owned();
    s.append(middle);
    s.append(tail);
    s
}

/// The arguments that select the target and its system headers.
pub fn target_arguments(toolchain: &Toolchain) -> (r: Vec<String>)
    ensures
        spec_texts(r@) == spec_target_arguments(toolchain@),
{
    let mut r: Vec<String> = Vec::new();
    match toolchain {
        Toolchain::Arm { include_paths } => {
            r.push("--target=thumbv7em-none-eabihf".to_owned());
            r.push("-mthumb".to_owned());
            r.push("-mcpu=cortex-m4".to_owned());
            r.push("-mfloat-abi=hard".to_owned());
            r.push("-mfpu=fpv4-sp-d16".to_owned());
            r.push("-D__GNUC__".to_owned());
            r.push("-D__STDC__=1".to_owned());
            r.push("-D__ARM_ARCH_7EM__=1".to_owned());
            let ghost fixed = spec_texts(r@);
            let mut i: usize = 0;
            while i < include_paths.len()
                invariant
                    i <= include_paths.len(),
                    r.len() == 8 + i,
                    spec_texts(r@).take(8) == fixed,
                    forall|k: int|
                        0 <= k < i ==> r@[8 + k]@ == "-isystem"@ + include_paths@[k]@,
                decreases include_paths.len() - i,
            {
                let ghost before = spec_texts(r@);
                r.push(joined("-isystem", include_paths[i].as_str()));
                proof {
                    assert(spec_texts(r@).take(8) =~= before.take(8));
                }
                i = i + 1;
            }
            proof {
                let got = spec_texts(r@);
                let want = spec_target_arguments(toolchain@);
                assert(got.len() == want.len());
                assert forall|k: int| 0 <= k < got.len() implies got[k] == want[k] by {
                    if k < 8 {
                        assert(got[k] == got.take(8)[k]);
                    } else {
                        assert(got[k] == r@[8 + (k - 8)]@);
                    }
                }
                assert(got =~= want);
            }
        },
        Toolchain::RiscV { sysroot, libgcc_dir } => {
            r.push("--target=riscv32".to_owned());
            r.push(joined("--sysroot=", sysroot.as_str()));
            r.push(joined3("-I", sysroot.as_str(), "/include"));
            r.push(joined3("-I", sysroot.as_str(), "/riscv32-esp-elf/include"));
            match libgcc_dir {
                Some(d) => {
                    r.push(joined3("-I", d.as_str(), "/include"));
                    r.push(joined3("-I", d.as_str(), "/include-fixed"));
                },
                None => {},
            }
            proof {
                assert(spec_texts(r@) =~= spec_target_arguments(toolchain@));
            }
        },
        Toolchain::Host => {
            proof {
                assert(spec_texts(r@) =~= spec_target_arguments(toolchain@));
            }
        },
    }
    r
}

/// Decides whether bindings can be generated for the headers in `headers`,
/// given whether that directory exists, and says for which family of
/// targets the toolchain is to be found.
pub fn generate_bindings(headers: &str, headers_exist: bool, target: &str) -> (r: Result<
    TargetFamily,
    BuildError,
>)
    ensures
        match r {
            Ok(family) => headers_exist && family == spec_target_family(target@),
            Err(e) => !headers_exist && e@ == BuildErrorView::HeadersNotFound(headers@),
        },
{
    if !headers_exist {
        return Err(BuildError::HeadersNotFound(headers.to_owned()));
    }
    Ok(target_family(target))
}

/// The arguments for the binding generator: those of the target, then the
/// directory `headers` of the SDK's headers.
pub fn clang_arguments(toolchain: &Toolchain, headers: &str) -> (r: Vec<String>)
    ensures
        spec_texts(r@) == spec_clang_arguments(toolchain@, headers@),
{
    let mut arguments = target_arguments(toolchain);
    let ghost before = spec_texts(arguments@);
    arguments.push(joined("-I", headers));
    proof {
        assert(spec_texts(arguments@) =~= before + seq!["-I"@ + headers@]);
    }
    arguments
}

/// Whether the header called `file_name` takes part under `caps`: a header
/// of the distance or presence detector does if its capability is on, and
/// any other header always does.
pub open spec fn spec_header_is_selected(file_name: Seq<char>, caps: Capabilities) -> bool {
    let distance = spec_contains(file_name, "distance"@);
    let presence = spec_contains(file_name, "presence"@);
    (distance && caps.distance) || (presence && caps.presence) || (!distance && !presence)
}

/// Those of `file_names` that take part under `caps`, in order.
pub open spec fn spec_selected_headers(file_names: Seq<Seq<char>>, caps: Capabilities) -> Seq<
    Seq<char>,
>
    decreases file_names.len(),
{
    if file_names.len() == 0 {
        Seq::empty()
    } else {
        let init = spec_selected_headers(file_names.drop_last(), caps);
        if spec_header_is_selected(file_names.last(), caps) {
            init.push(file_names.last())
        } else {
            init
        }
    }
}

/// Whether the header called `file_name` takes part under `caps`.
pub fn header_is_selected(file_name: &str, caps: Capabilities) -> (r: bool)
    ensures
        r == spec_header_is_selected(file_name@, caps),
{
    let name = chars_of(file_name);
    let distance = contains(&name, &chars_of("distance"));
    let presence = contains(&name, &chars_of("presence"));
    (distance && caps.distance) || (presence && caps.presence) || (!distance && !presence)
}

/// Those of the headers `file_names` that the binding generator is to
/// read under `caps`, in the order given.
pub fn add_headers_to_bindings(file_names: &[String], caps: Capabilities) -> (r: Vec<String>)
    ensures
        spec_texts(r@) == spec_selected_headers(spec_texts(file_names@), caps),
{
    let ghost all = spec_texts(file_names@);
    let mut r: Vec<String> = Vec::new();
    let mut i: usize = 0;
    proof {
        assert(all.take(0) =~= Seq::<Seq<char>>::empty());
        assert(spec_texts(r@) =~= Seq::<Seq<char>>::empty());
    }
    while i < file_names.len()
        invariant
            i <= file_names.len(),
            all == spec_texts(file_names@),
            spec_texts(r@) == spec_selected_headers(all.take(i as int), caps),
        decreases file_names.len() - i,
    {
        let ghost before = spec_texts(r@);
        proof {
            assert(all.take(i + 1).drop_last() =~= all.take(i as int));
            assert(all.take(i + 1).last() == file_names@[i as int]@);
        }
        if header_is_selected(file_names[i].as_str(), caps) {
            r.push(file_names[i].clone());
            proof {
                assert(spec_texts(r@) =~= before.push(file_names@[i as int]@));
            }
        }
        i = i + 1;
    }
    proof {
        assert(all.take(file_names.len() as int) =~= all);
    }
    r
}


/// The directories listed in the lines of a compiler's report on where it
/// searches for headers. The list starts after the line that announces it,
/// ends before the line that closes it, and holds one directory per line
/// that begins with a space; `listing` says whether the list has started.
pub open spec fn spec_search_paths(lines: Seq<Seq<char>>, listing: bool) -> Seq<Seq<char>>
    decreases lines.len(),
{
    if lines.len() == 0 {
        Seq::empty()
    } else {
        let line = lines.first();
        let rest = lines.drop_first();
        if spec_contains(line, "#include"@) && spec_contains(line, "search starts here"@) {
            spec_search_paths(rest, true)
        } else if spec_contains(line, "End of search list"@) {
            Seq::empty()
        } else if listing && spec_starts_with(line, " "@) {
            seq![spec_trim(line)] + spec_search_paths(rest, listing)
        } else {
            spec_search_paths(rest, listing)
        }
    }
}

/// The directories listed in a compiler's report on where it searches for
/// headers.
pub open spec fn spec_search_list(report: Seq<char>) -> Seq<Seq<char>> {
    spec_search_paths(spec_split(report, '\n'), false)
}

/// Reads the directories out of a compiler's report on where it searches
/// for headers.
pub fn search_list(report: &str) -> (r: Vec<String>)
    ensures
        spec_texts(r@) == spec_search_list(report@),
{
    let lines = split(&chars_of(report), '\n');
    let opening = chars_of("#include");
    let starts = chars_of("search starts here");
    let closing = chars_of("End of search list");
    let space = chars_of(" ");
    let ghost all = spec_pieces(lines@);
    let mut r: Vec<String> = Vec::new();
    let mut listing = false;
    let mut i: usize = 0;
    proof {
        assert(all.skip(0) =~= all);
        assert(spec_texts(r@) =~= Seq::<Seq<char>>::empty());
        assert(Seq::<Seq<char>>::empty() + spec_search_paths(all, false) =~= spec_search_paths(
            all,
            false,
        ));
    }
    while i < lines.len()
        invariant
            i <= lines.len(),
            all == spec_pieces(lines@),
            all == spec_split(report@, '\n'),
            opening@ == "#include"@,
            starts@ == "search starts here"@,
            closing@ == "End of search list"@,
            space@ == " "@,
            spec_search_paths(all, false) == spec_texts(r@) + spec_search_paths(
                all.skip(i as int),
                listing,
            ),
        decreases lines.len() - i,
    {
        let line = &lines[i];
        let ghost before = spec_texts(r@);
        proof {
            assert(all.skip(i as int).first() == line@);
            assert(all.skip(i as int).drop_first() =~= all.skip(i + 1));
        }
        if contains(line, &opening) && contains(line, &starts) {
            listing = true;
        } else if contains(line, &closing) {
            proof {
                assert(all.skip(i as int).len() > 0);
                assert(spec_search_paths(all.skip(i as int), listing) =~= Seq::<
                    Seq<char>,
                >::empty());
                assert(before + Seq::<Seq<char>>::empty() =~= before);
            }
            return r;
        } else if listing && starts_with(line, &space) {
            let path = string_of(&trim(line));
            r.push(path);
            proof {
                let tail = spec_search_paths(all.skip(i + 1), listing);
                assert(spec_texts(r@) =~= before.push(spec_trim(line@)));
                assert(before + (seq![spec_trim(line@)] + tail) =~= before.push(spec_trim(line@))
                    + tail);
            }
        }
        i = i + 1;
    }
    proof {
        assert(spec_texts(r@) + Seq::<Seq<char>>::empty() =~= spec_texts(r@));
    }
    r
}

/// The directories in which an Arm toolchain usually keeps its headers.
pub open spec fn spec_usual_arm_include_paths() -> Seq<Seq<char>> {
    seq![
        "/usr/arm-none-eabi/include"@,
        "/usr/lib/arm-none-eabi/include"@,
        "/usr/local/arm-none-eabi/include"@,
        "/opt/arm-none-eabi/include"@,
        "/opt/gcc-arm-none-eabi/arm-none-eabi/include"@,
    ]
}

/// The directories in which an Arm toolchain usually keeps its headers.
pub fn usual_arm_include_paths() -> (r: Vec<String>)
    ensures
        spec_texts(r@) == spec_usual_arm_include_paths(),
{
    let mut r: Vec<String> = Vec::new();
    r.push("/usr/arm-none-eabi/include".to_owned());
    r.push("/usr/lib/arm-none-eabi/include".to_owned());
    r.push("/usr/local/arm-none-eabi/include".to_owned());
    r.push("/opt/arm-none-eabi/include".to_owned());
    r.push("/opt/gcc-arm-none-eabi/arm-none-eabi/include".to_owned());
    proof {
        assert(spec_texts(r@) =~= spec_usual_arm_include_paths());
    }
    r
}

/// The header directories of an Arm toolchain, chosen among what exists:
/// those that the compiler lists, else those among the usual ones, else
/// the one beside the compiler.
pub open spec fn spec_arm_include_paths(
    listed: Seq<Seq<char>>,
    usual: Seq<Seq<char>>,
    beside_compiler: Option<Seq<char>>,
) -> Option<Seq<Seq<char>>> {
    if listed.len() > 0 {
        Some(listed)
    } else if usual.len() > 0 {
        Some(usual)
    } else {
        match beside_compiler {
            Some(path) => Some(seq![path]),
            None => None,
        }
    }
}

/// Chooses the header directories of an Arm toolchain. Each argument holds
/// what exists on the machine: of the directories that the compiler lists,
/// of the usual ones, and the one beside the compiler.
pub fn find_arm_include_paths(
    listed: Vec<String>,
    usual: Vec<String>,
    beside_compiler: Option<String>,
) -> (r: Result<Vec<String>, BuildError>)
    ensures
        match r {
            Ok(paths) => spec_arm_include_paths(
                spec_texts(listed@),
                spec_texts(usual@),
                match beside_compiler {
                    Some(p) => Some(p@),
                    None => None,
                },
            ) == Some(spec_texts(paths@)),
            Err(e) => listed.len() == 0 && usual.len() == 0 && beside_compiler is None && e@
                == BuildErrorView::BindgenError(
                "Could not find ARM toolchain include paths. Please ensure arm-none-eabi-gcc is installed and in PATH."@,
            ),
        },
{
    if listed.len() > 0 {
        return Ok(listed);
    }
    if usual.len() > 0 {
        return Ok(usual);
    }
    match beside_compiler {
        Some(path) => {
            let ghost p = path@;
            let mut paths: Vec<String> = Vec::new();
            paths.push(path);
            proof {
                assert(spec_texts(paths@) =~= seq![p]);
            }
            Ok(paths)
        },
        None => Err(
            BuildError::BindgenError(
                "Could not find ARM toolchain include paths. Please ensure arm-none-eabi-gcc is installed and in PATH.".to_owned(),
            ),
        ),
    }
}

/// Adds the directory of the reduced C library to `paths` where none of
/// them holds `inttypes.h` and such a directory was found.
pub fn with_newlib_nano(paths: Vec<String>, has_inttypes: bool, nano: Option<String>) -> (r: Vec<
    String,
>)
    ensures
        spec_texts(r@) == (match nano {
            Some(dir) => if has_inttypes {
                spec_texts(paths@)
            } else {
                spec_texts(paths@).push(dir@)
            },
            None => spec_texts(paths@),
        }),
{
    let ghost before = spec_texts(paths@);
    let mut r = paths;
    if !has_inttypes {
        match nano {
            Some(dir) => {
                let ghost d = dir@;
                r.push(dir);
                proof {
                    assert(spec_texts(r@) =~= before.push(d));
                }
            },
            None => {},
        }
    }
    r
}

/// The system root of a RISC-V toolchain: what the compiler prints, without
/// surrounding whitespace; where it prints nothing, the directory beside
/// the compiler, if one was found.
pub open spec fn spec_riscv_sysroot(printed: Seq<char>, beside_compiler: Option<Seq<char>>) -> Seq<
    char,
> {
    if printed.len() == 0 {
        match beside_compiler {
            Some(dir) => dir,
            None => spec_trim(printed),
        }
    } else {
        spec_trim(printed)
    }
}

/// The system root of a RISC-V toolchain, from what its compiler printed
/// when asked and from the directory beside the compiler.
pub fn get_riscv_sysroot(printed: &str, beside_compiler: Option<String>) -> (r: String)
    ensures
        r@ == spec_riscv_sysroot(
            printed@,
            match beside_compiler {
                Some(d) => Some(d@),
                None => None,
            },
        ),
{
    let text = chars_of(printed);
    if text.len() == 0 {
        match beside_compiler {
            Some(dir) => {
                return dir;
            },
            None => {},
        }
    }
    string_of(&trim(&text))
}

/// The compiler and the flags with which the logging shim is built for a
/// target of the given family; for other targets the default compiler
/// serves, without flags.
pub open spec fn spec_log_wrapper_compiler(family: TargetFamily) -> Option<
    (Seq<char>, Seq<Seq<char>>),
> {
    match family {
        TargetFamily::Arm => Some(
            (
                "arm-none-eabi-gcc"@,
                seq!["-mcpu=cortex-m4"@, "-mthumb"@, "-mfloat-abi=hard"@, "-mfpu=fpv4-sp-d16"@],
            ),
        ),
        TargetFamily::RiscV => Some(("riscv32-esp-elf-gcc"@, Seq::empty())),
        TargetFamily::Other => None,
    }
}

/// The compiler and the flags with which the logging shim is built.
pub fn add_log_wrapper(family: TargetFamily) -> (r: Option<(String, Vec<String>)>)
    ensures
        spec_log_wrapper_compiler(family) == (match r {
            Some(pair) => Some((pair.0@, spec_texts(pair.1@))),
            None => None,
        }),
{
    let mut flags: Vec<String> = Vec::new();
    match family {
        TargetFamily::Arm => {
            flags.push("-mcpu=cortex-m4".to_owned());
            flags.push("-mthumb".to_owned());
            flags.push("-mfloat-abi=hard".to_owned());
            flags.push("-mfpu=fpv4-sp-d16".to_owned());
            proof {
                assert(spec_texts(flags@) =~= seq![
                    "-mcpu=cortex-m4"@,
                    "-mthumb"@,
                    "-mfloat-abi=hard"@,
                    "-mfpu=fpv4-sp-d16"@,
                ]);
            }
            Some(("arm-none-eabi-gcc".to_owned(), flags))
        },
        TargetFamily::RiscV => {
            proof {
                assert(spec_texts(flags@) =~= Seq::<Seq<char>>::empty());
            }
            Some(("riscv32-esp-elf-gcc".to_owned(), flags))
        },
        TargetFamily::Other => None,
    }
}

} // verus!
