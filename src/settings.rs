//! Settings of the child process and of the theme.

use vstd::prelude::*;
use std::collections::HashMap;
use std::path::PathBuf;
use crate::theme::ColorPalette;

verus! {

/// `std::path::PathBuf`, carried as it is: the child's working directory.
#[verifier::external_type_specification]
#[verifier::external_body]
pub struct ExPathBuf(PathBuf);

/// The program run when none is configured.
pub const DEFAULT_SHELL: &'static str = "/bin/bash";

/// How to start the child process: the program, its arguments, variables to
/// set in its environment, and its working directory.
#[derive(Clone, Debug)]
pub struct BackendSettings {
    pub program: String,
    pub args: Vec<String>,
    pub env: HashMap<String, String>,
    pub working_directory: Option<PathBuf>,
}

impl Default for BackendSettings {
    fn default() -> (r: BackendSettings)
        ensures
            r.program@ == DEFAULT_SHELL@,
            r.args@.len() == 0,
            r.env@ == Map::<String, String>::empty(),
            r.working_directory is None,
    {
        BackendSettings {
            program: String::from_str(DEFAULT_SHELL),
            args: Vec::new(),
            env: HashMap::new(),
            working_directory: None,
        }
    }
}

/// The colours of the terminal.
#[derive(Clone, Debug)]
pub struct ThemeSettings {
    pub color_pallete: Box<ColorPalette>,
}

impl ThemeSettings {
    pub fn new(color_pallete: Box<ColorPalette>) -> (r: ThemeSettings)
        ensures
            r.color_pallete == color_pallete,
    {
        ThemeSettings { color_pallete }
    }
}

impl Default for ThemeSettings {
    fn default() -> (r: ThemeSettings)
        ensures
            r.color_pallete.valid(),
    {
        ThemeSettings { color_pallete: Box::new(ColorPalette::default()) }
    }
}

} // verus!
