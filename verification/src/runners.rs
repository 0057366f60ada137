//! The script runners the tool can dispatch a file to.
//!
//! Each runner is a plain value naming an embedded interpreter or a shell;
//! which runner a file gets is decided by its extension. Running a file is
//! the business of the surrounding program: nothing here touches a process
//! or an interpreter.

pub mod language;

pub use language::{
    JavaScriptLanguage, Language, LanguageError, LuaLanguage, PythonLanguage, ShellLanguage,
};
