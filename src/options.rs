//! The toolchain configuration that every compilation runs with.
use std::path::PathBuf;
use vstd::prelude::*;

verus! {

/// Optimisation level handed to the code generator.
#[derive(Clone, Copy, Debug, PartialEq, Eq, Structural)]
pub enum OptLevel {
    No,
    Less,
    Default,
    Aggressive,
}

/// Kind of artefact a compilation produces.
#[derive(Clone, Copy, Debug, PartialEq, Eq, Structural)]
pub enum CrateType {
    Executable,
    Dylib,
    Rlib,
    Staticlib,
}

/// Whether unstable language features may be used.
#[derive(Clone, Copy, Debug, PartialEq, Eq, Structural)]
pub enum UnstableFeatures {
    Disallow,
    Allow,
}

/// The settings the engine fixes for each compilation; the toolchain's
/// defaults hold for all others.
#[derive(Debug)]
pub struct ExecOptions {
    /// Install root of the toolchain.
    pub sysroot: PathBuf,
    /// Library search paths, in order.
    pub search_paths: Vec<String>,
    pub optimize: OptLevel,
    pub crate_types: Vec<CrateType>,
    pub unstable_features: UnstableFeatures,
}

pub struct ExecOptionsView {
    pub sysroot: PathBuf,
    pub search_paths: Seq<String>,
    pub optimize: OptLevel,
    pub crate_types: Seq<CrateType>,
    pub unstable_features: UnstableFeatures,
}

impl View for ExecOptions {
    type V = ExecOptionsView;

    open spec fn view(&self) -> ExecOptionsView {
        ExecOptionsView {
            sysroot: self.sysroot,
            search_paths: self.search_paths@,
            optimize: self.optimize,
            crate_types: self.crate_types@,
            unstable_features: self.unstable_features,
        }
    }
}

/// The options for a session: the given install root and search paths, no
/// optimisation (fastest build), a dynamically loadable library as output
/// (no `main` needed), and unstable features allowed.
pub open spec fn spec_exec_options(sysroot: PathBuf, libs: Seq<String>) -> ExecOptionsView {
    ExecOptionsView {
        sysroot,
        search_paths: libs,
        optimize: OptLevel::No,
        crate_types: seq![CrateType::Dylib],
        unstable_features: UnstableFeatures::Allow,
    }
}

/// Builds the options every compilation of the engine runs with.
pub fn build_exec_options(sysroot: PathBuf, libs: Vec<String>) -> (r: ExecOptions)
    ensures
        r@ == spec_exec_options(sysroot, libs@),
{
    let mut crate_types: Vec<CrateType> = Vec::new();
    crate_types.push(CrateType::Dylib);
    ExecOptions {
        sysroot,
        search_paths: libs,
        optimize: OptLevel::No,
        crate_types,
        unstable_features: UnstableFeatures::Allow,
    }
}

pub open spec fn is_line_end(c: char) -> bool {
    c == '\r' || c == '\n'
}

/// `s` without the line terminators (`\r`, `\n`) at its end.
pub open spec fn trim_line_ends(s: Seq<char>) -> Seq<char>
    decreases s.len(),
{
    if s.len() > 0 && is_line_end(s.last()) {
        trim_line_ends(s.drop_last())
    } else {
        s
    }
}

/// The install root the toolchain printed: its output without the line
/// terminators at the end.
pub fn sysroot_from_output(output: &str) -> (r: String)
    ensures
        r@ == trim_line_ends(output@),
{
    let mut end: usize = output.unicode_len();
    assert(output@.subrange(0, end as int) =~= output@);
    while end > 0 && is_line_end_char(output.get_char(end - 1))
        invariant
            end <= output@.len(),
            trim_line_ends(output@) == trim_line_ends(output@.subrange(0, end as int)),
        decreases end,
    {
        assert(output@.subrange(0, end as int).drop_last() =~= output@.subrange(0, end - 1));
        end = end - 1;
    }
    output.substring_char(0, end).to_owned()
}

fn is_line_end_char(c: char) -> (r: bool)
    ensures
        r == is_line_end(c),
{
    c == '\r' || c == '\n'
}

} // verus!
