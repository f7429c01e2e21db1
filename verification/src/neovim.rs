//! Hooking the editor up: the line in its start-up file that loads the
//! module which follows the state file.

use vstd::prelude::*;
use vstd::string::StringExecFns;

use crate::text::{contains_text, has_substring};

verus! {

/// Whether a start-up file already loads the module, in either way of
/// quoting its name.
pub open spec fn loads_module(content: Seq<char>) -> bool {
    has_substring(content, "require(\"suntheme\")"@) || has_substring(
        content,
        "require('suntheme')"@,
    )
}

/// The start-up file `content` with the loading line put before it.
pub open spec fn with_loading_line(content: Seq<char>) -> Seq<char> {
    "require(\"suntheme\")\n"@ + content
}

/// What to write to the editor's start-up file so that it loads the module,
/// given the file's present content if the file exists.
///
/// A file that loads the module already is left alone: nothing is returned.
/// Otherwise the loading line goes first and the present content after it.
pub fn init_lua_with_require(existing: Option<&str>) -> (update: Option<String>)
    ensures
        update is None <==> (existing matches Some(content) && loads_module(content@)),
        update matches Some(text) ==> text@ == with_loading_line(
            match existing {
                Some(content) => content@,
                None => Seq::empty(),
            },
        ),
{
    match existing {
        Some(content) => {
            if contains_text(content, "require(\"suntheme\")") || contains_text(
                content,
                "require('suntheme')",
            ) {
                None
            } else {
                let mut text = String::from_str("require(\"suntheme\")\n");
                text.append(content);
                Some(text)
            }
        },
        None => {
            let text = String::from_str("require(\"suntheme\")\n");
            Some(text)
        },
    }
}

} // verus!
