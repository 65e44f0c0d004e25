//! The lines the tool prints: each message is pinned, character for
//! character, to the name or path it reports.

use vstd::prelude::*;
use vstd::string::*;

verus! {

/// The error line for an input path that does not exist; it names the path.
pub fn missing_input_message(path: &str) -> (r: String)
    ensures
        r@ == "Error: file '"@ + path@ + "' was not found!"@,
{
    let r = String::from_str("Error: file '").concat(path).concat("' was not found!");
    proof {
        assert(r@ =~= "Error: file '"@ + path@ + "' was not found!"@);
    }
    r
}

/// The rejection line for a filename without a recognized suffix; it names
/// the filename.
pub fn unsupported_name_message(file_name: &str) -> (r: String)
    ensures
        r@ == "Error: the format '"@ + file_name@ + "' is not supported!"@,
{
    let r = String::from_str("Error: the format '").concat(file_name).concat(
        "' is not supported!",
    );
    proof {
        assert(r@ =~= "Error: the format '"@ + file_name@ + "' is not supported!"@);
    }
    r
}

/// The notice for a package whose target directory already exists; it names
/// the package and the directory.
pub fn already_extracted_message(base: &str, target: &str) -> (r: String)
    ensures
        r@ == "The package '"@ + base@ + "' is already unpacked in '"@ + target@ + "'"@,
{
    let r = String::from_str("The package '").concat(base).concat(
        "' is already unpacked in '",
    ).concat(target).concat("'");
    proof {
        assert(r@ =~= "The package '"@ + base@ + "' is already unpacked in '"@ + target@ + "'"@);
    }
    r
}

/// The completion line after a successful run; it names the package.
pub fn completion_message(base: &str) -> (r: String)
    ensures
        r@ == "The package '"@ + base@ + "' has been successfully converted"@,
{
    let r = String::from_str("The package '").concat(base).concat(
        "' has been successfully converted",
    );
    proof {
        assert(r@ =~= "The package '"@ + base@ + "' has been successfully converted"@);
    }
    r
}

} // verus!
