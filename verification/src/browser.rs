//! What the sample browser lists and what the VST3 scanner reports.
//! Walking directories and reading files is done by the host application;
//! it hands each entry it finds to the functions here.

use vstd::prelude::*;

verus! {

/// Whether `s` spells the literal `lit`.
fn is_named(s: &str, lit: &str) -> (r: bool)
    ensures
        r == (s@ == lit@),
{
    s.to_owned() == lit.to_owned()
}

/// The Unicode lowercase mapping of a string, as std's `str::to_lowercase`
/// computes it.
pub uninterp spec fn unicode_lowercase(s: Seq<char>) -> Seq<char>;

/// Calls std's `str::to_lowercase`. Claimed: the result is the Unicode
/// lowercase mapping of the argument, a function of the argument alone
/// (named `unicode_lowercase`, not spelled out).
#[verifier::external_body]
fn lowercase(s: &str) -> (r: String)
    ensures
        r@ == unicode_lowercase(s@),
{
    s.to_lowercase()
}

/// The lowercase file extensions of audio files the browser lists.
pub open spec fn is_audio_extension(ext: Seq<char>) -> bool {
    ext == "wav"@ || ext == "mp3"@ || ext == "ogg"@ || ext == "flac"@
}

/// Whether a lowercase extension is one of the listed audio formats
/// (WAV, MP3, OGG, FLAC).
pub fn is_supported_audio_extension(ext_lower: &str) -> (r: bool)
    ensures
        r == is_audio_extension(ext_lower@),
{
    is_named(ext_lower, "wav") || is_named(ext_lower, "mp3") || is_named(ext_lower, "ogg")
        || is_named(ext_lower, "flac")
}

/// Whether a file with extension `ext` is listed, comparing without regard
/// to case.
pub fn is_sample_file_extension(ext: &str) -> (r: bool)
    ensures
        r == is_audio_extension(unicode_lowercase(ext@)),
{
    let lower = lowercase(ext);
    is_supported_audio_extension(lower.as_str())
}

/// An entry of the sample browser tree: a folder with its listing, or an
/// audio file.
#[derive(Debug)]
pub struct SampleNode {
    pub name: String,
    pub path: String,
    pub is_dir: bool,
    pub children: Option<Vec<SampleNode>>,
}

impl SampleNode {
    /// The browser entry of a file: listed (with no children) when its
    /// extension is one of the audio formats, otherwise not listed. A file
    /// without an extension is not listed.
    pub fn for_file(name: String, path: String, extension: Option<&str>) -> (r: Option<SampleNode>)
        ensures
            r is Some <==> (extension matches Some(e) && is_audio_extension(unicode_lowercase(e@))),
            r matches Some(node) ==> {
                &&& node.name == name
                &&& node.path == path
                &&& !node.is_dir
                &&& node.children is None
            },
    {
        match extension {
            Some(e) => {
                if is_sample_file_extension(e) {
                    Some(SampleNode { name, path, is_dir: false, children: None })
                } else {
                    None
                }
            },
            None => None,
        }
    }

    /// The browser entry of a folder with the listing found inside it.
    pub fn for_directory(name: String, path: String, children: Option<Vec<SampleNode>>) -> (r: SampleNode)
        ensures
            r.name == name,
            r.path == path,
            r.is_dir,
            r.children == children,
    {
        SampleNode { name, path, is_dir: true, children }
    }
}

/// Whether a path's extension marks a VST3 bundle or module.
pub fn is_vst3_extension(ext: &str) -> (r: bool)
    ensures
        r == (ext@ == "vst3"@),
{
    is_named(ext, "vst3")
}

/// One class entry of a VST3 bundle's `moduleinfo.json`.
#[derive(Debug)]
pub struct ModuleClass {
    pub name: Option<String>,
    pub category: Option<String>,
    pub vendor: Option<String>,
    pub cid: Option<String>,
}

/// A VST3 plugin found on disk.
#[derive(Debug)]
pub struct VstPluginInfo {
    pub name: String,
    pub path: String,
    pub vendor: String,
    pub category: String,
    pub cid: Option<String>,
}

/// The text of an optional field, or `default` when it is absent.
pub open spec fn text_or(field: Option<String>, default: Seq<char>) -> Seq<char> {
    match field {
        Some(s) => s@,
        None => default,
    }
}

/// The first class of the module information, when there is one.
pub open spec fn first_class(classes: Option<Vec<ModuleClass>>) -> Option<ModuleClass> {
    match classes {
        Some(v) => if v@.len() > 0 { Some(v@[0]) } else { None },
        None => None,
    }
}

/// The text of an optional field.
fn text_or_else(field: &Option<String>, default: String) -> (r: String)
    ensures
        r@ == text_or(*field, default@),
{
    match field {
        Some(s) => s.clone(),
        None => default,
    }
}

impl VstPluginInfo {
    /// Describes the bundle at `path` whose file stem is `stem`. The first
    /// class listed in its module information (when there is one) supplies
    /// the name, vendor, category and class id; a missing field keeps the
    /// default: the file stem, "Unknown Vendor", "Effect" and no class id.
    pub fn from_bundle(stem: String, path: String, classes: Option<Vec<ModuleClass>>) -> (r: VstPluginInfo)
        ensures
            r.path == path,
            r.name@ == (match first_class(classes) {
                Some(c) => text_or(c.name, stem@),
                None => stem@,
            }),
            r.vendor@ == (match first_class(classes) {
                Some(c) => text_or(c.vendor, "Unknown Vendor"@),
                None => "Unknown Vendor"@,
            }),
            r.category@ == (match first_class(classes) {
                Some(c) => text_or(c.category, "Effect"@),
                None => "Effect"@,
            }),
            r.cid == (match first_class(classes) {
                Some(c) => c.cid,
                None => None,
            }),
    {
        let vendor = String::from_str("Unknown Vendor");
        let category = String::from_str("Effect");
        match &classes {
            Some(v) => {
                if v.len() > 0 {
                    let c = &v[0];
                    let cid = match &c.cid {
                        Some(id) => Some(id.clone()),
                        None => None,
                    };
                    return VstPluginInfo {
                        name: text_or_else(&c.name, stem),
                        path,
                        vendor: text_or_else(&c.vendor, vendor),
                        category: text_or_else(&c.category, category),
                        cid,
                    };
                }
            },
            None => {},
        }
        VstPluginInfo { name: stem, path, vendor, category, cid: None }
    }
}

/// Exactly four formats are listed: a lowercase extension is an audio
/// extension when it is wav, mp3, ogg or flac, and no other extension is.
pub proof fn law_only_four_formats_listed(ext: Seq<char>)
    ensures
        is_audio_extension("wav"@),
        is_audio_extension("mp3"@),
        is_audio_extension("ogg"@),
        is_audio_extension("flac"@),
        ext != "wav"@ && ext != "mp3"@ && ext != "ogg"@ && ext != "flac"@ ==> !is_audio_extension(ext),
{
}

} // verus!
