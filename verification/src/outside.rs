//! The calls that leave this crate.  Verus takes the contracts in this file
//! on trust; everything else in the crate is proved from them.

use vstd::prelude::*;
use vstd::string::*;

verus! {

/// What `module_path_extractor::module_path_from_file_with_root` makes of a
/// file path and a module root: the module path of the file, as text.
pub uninterp spec fn file_module_text(file: Seq<char>, root: Seq<char>) -> Seq<char>;

/// Calls `syn::parse_str::<syn::Path>` on `text` and hands back the name of
/// each segment of the parsed path (generic arguments and a leading `::` are
/// left out), or `None` where the parser refuses the text.  Which names
/// come back is up to the lexer of the process, so the contract claims only
/// what holds of every outcome: the parser reads one segment before it
/// looks for more, so a path that was parsed has at least one name.  The
/// parser descends once for each nested generic argument, so the text must
/// be short.
#[verifier::external_body]
pub(crate) fn parse_path_names(text: &str) -> (r: Option<Vec<String>>)
    requires
        text@.len() <= 256,
    ensures
        r matches Some(names) ==> names.len() >= 1,
{
    match syn::parse_str::<syn::Path>(text) {
        Ok(path) => Some(path.segments.iter().map(|segment| segment.ident.to_string()).collect()),
        Err(_) => None,
    }
}

/// Calls `module_path_extractor::module_path_from_file_with_root`, which
/// derives a module path from the text of the two paths alone and does not
/// look at the file system.  The contract only gives the result its name,
/// `file_module_text`.
#[verifier::external_body]
pub(crate) fn module_text_of_file(file: &str, root: &str) -> (r: String)
    ensures
        r@ == file_module_text(file@, root@),
{
    module_path_extractor::module_path_from_file_with_root(file, std::path::Path::new(root))
}

/// Calls `module_path_extractor::module_root_from_file`, which derives the
/// directory that module paths are relative to from the path of a file.
/// How a path is taken apart depends on the platform, so nothing is
/// claimed of the result.
#[verifier::external_body]
pub(crate) fn module_root_of_file(file: &str) -> (r: String)
{
    module_path_extractor::module_root_from_file(file).to_string_lossy().into_owned()
}

} // verus!
