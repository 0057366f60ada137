//! The languages a file can be run as, decided by its extension.

use vstd::prelude::*;

use crate::git::repo::{after_last, last_segment};
use crate::git::scan::str_equal;

verus! {

/// The JavaScript runner.
#[derive(Clone, Debug)]
pub struct JavaScriptLanguage {}

impl JavaScriptLanguage {
    /// The JavaScript runner.
    pub fn new() -> JavaScriptLanguage {
        JavaScriptLanguage {  }
    }
}

/// The Lua runner.
#[derive(Clone, Debug)]
pub struct LuaLanguage {}

impl LuaLanguage {
    /// The Lua runner.
    pub fn new() -> LuaLanguage {
        LuaLanguage {  }
    }
}

/// The Python runner.
#[derive(Clone, Debug)]
pub struct PythonLanguage {}

impl PythonLanguage {
    /// The Python runner.
    pub fn new() -> PythonLanguage {
        PythonLanguage {  }
    }
}

/// The shell runner, naming the shell a file is handed to.
#[derive(Clone, Debug)]
pub struct ShellLanguage {
    pub shell: String,
}

impl ShellLanguage {
    /// A shell runner using the given shell.
    pub fn new(shell: &str) -> (r: ShellLanguage)
        ensures
            r.shell@ == shell@,
    {
        ShellLanguage { shell: shell.to_owned() }
    }
}

/// An error naming a file extension no runner takes.
#[derive(Debug)]
pub enum LanguageError {
    UnsupportedLanguage(String),
}

/// A language, as a runner value.
#[derive(Debug)]
pub enum Language {
    JavaScript(JavaScriptLanguage),
    Lua(LuaLanguage),
    Python(PythonLanguage),
    Shell(ShellLanguage),
}

impl Language {
    /// The file extension a language's files carry.
    pub fn get_extension(&self) -> (r: &'static str)
        ensures
            match self {
                Language::Python(_) => r@ == ".py"@,
                Language::Lua(_) => r@ == ".lua"@,
                Language::JavaScript(_) => r@ == ".js"@,
                Language::Shell(_) => r@ == ".sh"@,
            },
    {
        match self {
            Language::Python(_) => ".py",
            Language::Lua(_) => ".lua",
            Language::JavaScript(_) => ".js",
            Language::Shell(_) => ".sh",
        }
    }

    /// The language a file is run as, decided by the part of its name after
    /// the last `.`: `js` and `ts` run as JavaScript, `lua` as Lua, `py` as
    /// Python, and `sh`, `bash`, `zsh` and `shell` as that shell. Any other
    /// extension is unsupported and is named in the error.
    pub fn try_from(file: &str) -> (r: Result<Language, LanguageError>)
        ensures
            ({
                let ext = after_last(file@, '.');
                match r {
                    Ok(l) => match l {
                        Language::JavaScript(_) => ext == "js"@ || ext == "ts"@,
                        Language::Lua(_) => ext == "lua"@,
                        Language::Python(_) => ext == "py"@,
                        Language::Shell(sh) => (ext == "sh"@ || ext == "bash"@ || ext == "zsh"@
                            || ext == "shell"@) && sh.shell@ == ext,
                    },
                    Err(LanguageError::UnsupportedLanguage(s)) => s@ == ext && ext != "js"@
                        && ext != "ts"@ && ext != "lua"@ && ext != "py"@ && ext != "sh"@ && ext
                        != "bash"@ && ext != "zsh"@ && ext != "shell"@,
                }
            }),
    {
        let ext = last_segment(file, '.');
        if str_equal(ext.as_str(), "js") || str_equal(ext.as_str(), "ts") {
            Ok(Language::JavaScript(JavaScriptLanguage::new()))
        } else if str_equal(ext.as_str(), "lua") {
            Ok(Language::Lua(LuaLanguage::new()))
        } else if str_equal(ext.as_str(), "py") {
            Ok(Language::Python(PythonLanguage::new()))
        } else if str_equal(ext.as_str(), "sh") || str_equal(ext.as_str(), "bash")
            || str_equal(ext.as_str(), "zsh") || str_equal(ext.as_str(), "shell") {
            Ok(Language::Shell(ShellLanguage::new(ext.as_str())))
        } else {
            Err(LanguageError::UnsupportedLanguage(ext))
        }
    }
}

} // verus!
