use vstd::prelude::*;

verus! {

/// The directory in which matches are saved.
pub const SAVE_FILE_PATH: &'static str = "./save_files";

/// Where the save called `file_name` is kept.
pub open spec fn spec_save_path(file_name: Seq<char>) -> Seq<char> {
    SAVE_FILE_PATH@ + "/"@ + file_name + ".json"@
}

/// Where the save called `file_name` is kept.
pub fn save_path(file_name: &str) -> (path: String)
    ensures
        path@ == spec_save_path(file_name@),
{
    let mut path = String::from_str(SAVE_FILE_PATH);
    path.append("/");
    path.append(file_name);
    path.append(".json");
    path
}

/// Where the file called `file_name`, a save with its ending, lies.
pub fn saved_file_path(file_name: &str) -> (path: String)
    ensures
        path@ == SAVE_FILE_PATH@ + "/"@ + file_name@,
{
    let mut path = String::from_str(SAVE_FILE_PATH);
    path.append("/");
    path.append(file_name);
    path
}

} // verus!
