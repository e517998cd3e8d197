//! What an encoder hands back: named files with their content, or the
//! reason why there are none. Also the rules by which files and themes are
//! named.

use vstd::prelude::*;
use vstd::string::*;
use crate::config::{
    names_unique, Config, ConfigView, OutName, OutNameView, Target, TargetView,
};
use crate::text::{capitalize, capitalize_spec, same_text, slug, slug_spec};

verus! {

/// One file to write into a target's directory.
#[derive(Debug)]
pub struct OutputFile {
    pub name: String,
    pub content: String,
}

/// The view of [`OutputFile`].
pub struct OutputFileView {
    pub name: Seq<char>,
    pub content: Seq<char>,
}

impl View for OutputFile {
    type V = OutputFileView;

    open spec fn view(&self) -> OutputFileView {
        OutputFileView { name: self.name@, content: self.content@ }
    }
}

/// The views of a sequence of files, in order.
pub open spec fn files_view(files: Seq<OutputFile>) -> Seq<OutputFileView> {
    Seq::new(files.len(), |i: int| files[i]@)
}

/// Why a target produced no files.
#[derive(Debug)]
pub enum GenerateError {
    /// No encoder goes by the target's id, which is held here.
    UnknownTarget(String),
    /// The error of the JSON printer, handed on as it came. The encoders
    /// never meet it: printing their documents cannot fail.
    Json(serde_json::Error),
}

/// The message for a target id that no encoder goes by.
pub open spec fn unknown_target_message_spec(id: Seq<char>) -> Seq<char> {
    "Unknown target id: "@ + id
}

/// The message for a target id that no encoder goes by.
pub fn unknown_target_message(id: &str) -> (res: String)
    ensures
        res@ == unknown_target_message_spec(id@),
{
    let mut out = String::from_str("Unknown target id: ");
    out.append(id);
    out
}

/// The first file name that `names` gives for `variant`.
pub open spec fn find_name(names: Seq<OutNameView>, variant: Seq<char>) -> Option<Seq<char>>
    decreases names.len(),
{
    if names.len() == 0 {
        None
    } else if names[0].variant == variant {
        Some(names[0].file)
    } else {
        find_name(names.subrange(1, names.len() as int), variant)
    }
}

/// The file name that a target itself gives to a variant, if any.
pub open spec fn named_file(target: TargetView, variant: Seq<char>) -> Option<Seq<char>> {
    match target.out_names {
        Some(names) => find_name(names, variant),
        None => None,
    }
}

/// The name of a variant's file: the one that the target gives, else the
/// file-name form of the theme name, a hyphen, the variant's name and the
/// format's extension.
pub open spec fn variant_file_spec(
    cfg: ConfigView,
    target: TargetView,
    variant: Seq<char>,
    extension: Seq<char>,
) -> Seq<char> {
    match named_file(target, variant) {
        Some(file) => file,
        None => slug_spec(cfg.meta.name) + "-"@ + variant + extension,
    }
}

/// The name of a target's single file: the one that the target gives, else
/// the fallback.
pub open spec fn single_file_spec(target: TargetView, fallback: Seq<char>) -> Seq<char> {
    match target.out_file {
        Some(file) => file,
        None => fallback,
    }
}

/// What follows the theme name in a variant's title: nothing for the
/// variant `base`, else the capitalised variant name in brackets.
pub open spec fn variant_suffix_spec(variant: Seq<char>) -> Seq<char> {
    if variant == "base"@ {
        Seq::<char>::empty()
    } else {
        " ("@ + capitalize_spec(variant) + ")"@
    }
}

/// Looks `variant` up in a list of file names.
fn lookup_name<'a>(names: &'a Vec<OutName>, variant: &str) -> (res: Option<&'a String>)
    ensures
        match res {
            Some(file) => find_name(Seq::new(names@.len(), |i: int| names@[i]@), variant@) == Some(
                file@,
            ),
            None => find_name(Seq::new(names@.len(), |i: int| names@[i]@), variant@) is None,
        },
{
    let ghost all = Seq::new(names@.len(), |i: int| names@[i]@);
    let n: usize = names.len();
    let mut i: usize = 0;
    assert(all.subrange(0, n as int) =~= all);
    while i < n
        invariant
            i <= n,
            n == names@.len(),
            all == Seq::new(names@.len(), |k: int| names@[k]@),
            find_name(all, variant@) == find_name(all.subrange(i as int, n as int), variant@),
        decreases n - i,
    {
        proof {
            let cur = all.subrange(i as int, n as int);
            assert(cur[0] == names@[i as int]@);
            assert(cur.subrange(1, cur.len() as int) =~= all.subrange(i as int + 1, n as int));
        }
        if same_text(names[i].variant.as_str(), variant) {
            return Some(&names[i].file);
        }
        i = i + 1;
    }
    None
}

/// The name of the file that a target writes for one variant.
pub fn variant_file(
    cfg: &Config,
    target: &Target,
    variant: &str,
    extension: &str,
) -> (res: String)
    ensures
        res@ == variant_file_spec(cfg@, target@, variant@, extension@),
{
    let named: Option<&String> = match &target.out_names {
        Some(names) => lookup_name(names, variant),
        None => None,
    };
    match named {
        Some(file) => file.clone(),
        None => {
            let mut out = slug(cfg.meta.name.as_str());
            out.append("-");
            out.append(variant);
            out.append(extension);
            out
        },
    }
}

/// The name of the single file that a target writes.
pub fn single_file_name(target: &Target, fallback: String) -> (res: String)
    ensures
        res@ == single_file_spec(target@, fallback@),
{
    match &target.out_file {
        Some(file) => file.clone(),
        None => fallback,
    }
}

/// What follows the theme name in the title of a variant.
pub fn variant_suffix(variant: &str) -> (res: String)
    ensures
        res@ == variant_suffix_spec(variant@),
{
    if same_text(variant, "base") {
        String::new()
    } else {
        let mut out = String::from_str(" (");
        out.append(capitalize(variant).as_str());
        out.append(")");
        out
    }
}

/// The files of an encoder that prints one JSON document: the one file
/// where printing succeeded, the printer's error where it did not.
pub fn single_file(
    name: String,
    rendered: Result<String, serde_json::Error>,
) -> (res: Result<Vec<OutputFile>, GenerateError>)
    ensures
        match rendered {
            Ok(text) => res is Ok && files_view(res->Ok_0@) == seq![
                (OutputFileView { name: name@, content: text@ }),
            ],
            Err(_) => res is Err && res->Err_0 is Json,
        },
{
    match rendered {
        Ok(text) => {
            let mut files: Vec<OutputFile> = Vec::new();
            files.push(OutputFile { name: name, content: text });
            assert(files_view(files@) =~= seq![(OutputFileView { name: name@, content: text@ })]);
            Ok(files)
        },
        Err(e) => Err(GenerateError::Json(e)),
    }
}

/// Adds one printed JSON document to the files of an encoder, or hands on
/// the printer's error and leaves the files as they are.
pub fn push_rendered(
    files: &mut Vec<OutputFile>,
    name: String,
    rendered: Result<String, serde_json::Error>,
) -> (res: Result<(), GenerateError>)
    ensures
        match rendered {
            Ok(text) => res is Ok && files_view(final(files)@) == files_view(old(files)@).push(
                (OutputFileView { name: name@, content: text@ }),
            ),
            Err(_) => res is Err && res->Err_0 is Json && final(files)@ == old(files)@,
        },
{
    match rendered {
        Ok(text) => {
            files.push(OutputFile { name: name, content: text });
            assert(files_view(files@) =~= files_view(old(files)@).push(
                OutputFileView { name: name@, content: text@ },
            ));
            Ok(())
        },
        Err(e) => Err(GenerateError::Json(e)),
    }
}

/// Where no variant occurs twice, the names are a map: the name found for
/// the variant of an entry is the file of that entry.
pub proof fn lemma_unique_names_are_a_map(names: Seq<OutNameView>, index: int)
    requires
        names_unique(names),
        0 <= index < names.len(),
    ensures
        find_name(names, names[index].variant) == Some(names[index].file),
    decreases names.len(),
{
    if index > 0 {
        let rest = names.subrange(1, names.len() as int);
        assert forall|i: int, j: int| 0 <= i < j < rest.len() implies (#[trigger] rest[i]).variant
            != (#[trigger] rest[j]).variant by {
            assert(rest[i] == names[i + 1]);
            assert(rest[j] == names[j + 1]);
        }
        assert(rest[index - 1] == names[index]);
        assert(names[0].variant != names[index].variant);
        lemma_unique_names_are_a_map(rest, index - 1);
    }
}

/// No name is found for a variant exactly where no entry is for it.
pub proof fn lemma_no_name_without_entry(names: Seq<OutNameView>, variant: Seq<char>)
    ensures
        find_name(names, variant) is None <==> forall|i: int|
            0 <= i < names.len() ==> (#[trigger] names[i]).variant != variant,
    decreases names.len(),
{
    if names.len() > 0 {
        let rest = names.subrange(1, names.len() as int);
        lemma_no_name_without_entry(rest, variant);
        assert forall|i: int| 0 <= i < rest.len() implies rest[i] == names[i + 1] by {}
        if names[0].variant != variant {
            if find_name(rest, variant) is None {
                assert forall|i: int| 0 <= i < names.len() implies (#[trigger] names[i]).variant
                    != variant by {
                    if i > 0 {
                        assert(rest[i - 1] == names[i]);
                    }
                }
            } else {
                let k = choose|k: int| 0 <= k < rest.len() && (#[trigger] rest[k]).variant == variant;
                assert(names[k + 1].variant == variant);
            }
        }
    }
}

} // verus!
