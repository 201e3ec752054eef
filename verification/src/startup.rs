//! What is settled before the first file: which tools have to be at hand, and
//! which directory is worked on.

use crate::text::{text_of, texts};
use vstd::prelude::*;
use vstd::string::*;

verus! {

/// A tool that has to answer before any file is touched: the call that asks
/// it, and the complaint for the case that it cannot be started.
#[derive(Debug, PartialEq, Eq)]
pub struct Prerequisite {
    pub program: String,
    pub args: Vec<String>,
    pub complaint: String,
}

/// The model of a [`Prerequisite`].
pub struct PrerequisiteView {
    pub program: Seq<char>,
    pub args: Seq<Seq<char>>,
    pub complaint: Seq<char>,
}

impl View for Prerequisite {
    type V = PrerequisiteView;

    open spec fn view(&self) -> PrerequisiteView {
        PrerequisiteView {
            program: self.program@,
            args: texts(self.args@),
            complaint: self.complaint@,
        }
    }
}

/// The check of the extraction tool: a query for its version.
pub open spec fn extraction_check() -> PrerequisiteView {
    PrerequisiteView {
        program: "mkvextract"@,
        args: seq!["-V"@],
        complaint: "mkvextract needs to be installed. Try `sudo apt install mkvtoolnix`."@,
    }
}

/// The check of the conversion tool: a query for its version.
pub open spec fn conversion_check() -> PrerequisiteView {
    PrerequisiteView {
        program: "ffmpeg"@,
        args: seq!["-version"@],
        complaint: "ffmpeg needs to be installed. Try `sudo apt install ffmpeg`."@,
    }
}

/// The directory that the arguments of the program ask for: the first one
/// after the program's name, if there is one.
pub open spec fn requested_directory_of(args: Seq<Seq<char>>) -> Option<Seq<char>> {
    if args.len() >= 2 {
        Some(args[1])
    } else {
        None
    }
}

/// The complaint about a directory that is not there.
pub open spec fn missing_directory_complaint() -> Seq<char> {
    "Provided path does not exist."@
}

/// The tools to check, in the order in which they are checked.
pub fn prerequisites() -> (checks: Vec<Prerequisite>)
    ensures
        checks@.map_values(|check: Prerequisite| check@) == seq![
            extraction_check(),
            conversion_check(),
        ],
{
    let mut extraction_args: Vec<String> = Vec::new();
    extraction_args.push(String::from_str("-V"));
    let mut conversion_args: Vec<String> = Vec::new();
    conversion_args.push(String::from_str("-version"));
    let mut checks: Vec<Prerequisite> = Vec::new();
    checks.push(
        Prerequisite {
            program: String::from_str("mkvextract"),
            args: extraction_args,
            complaint: String::from_str(
                "mkvextract needs to be installed. Try `sudo apt install mkvtoolnix`.",
            ),
        },
    );
    checks.push(
        Prerequisite {
            program: String::from_str("ffmpeg"),
            args: conversion_args,
            complaint: String::from_str(
                "ffmpeg needs to be installed. Try `sudo apt install ffmpeg`.",
            ),
        },
    );
    proof {
        assert(texts(checks@[0].args@) =~= seq!["-V"@]);
        assert(texts(checks@[1].args@) =~= seq!["-version"@]);
        assert(checks@.map_values(|check: Prerequisite| check@) =~= seq![
            extraction_check(),
            conversion_check(),
        ]);
    }
    checks
}

/// The directory that the arguments of the program ask for. `None` means
/// that none was given, and the current directory is meant.
pub fn requested_directory(args: &[String]) -> (directory: Option<String>)
    ensures
        text_of(directory) == requested_directory_of(texts(args@)),
{
    if args.len() >= 2 {
        Some(args[1].clone())
    } else {
        None
    }
}

/// The complaint about a directory that is not there.
pub fn missing_directory() -> (complaint: String)
    ensures
        complaint@ == missing_directory_complaint(),
{
    String::from_str("Provided path does not exist.")
}

} // verus!
