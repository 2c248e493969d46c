//! Where the source of a module comes from: a plugin, or the file system,
//! read and encoded as the module's type asks.
use vstd::pervasive::unreached;
use vstd::prelude::*;
use vstd::string::*;
use crate::hooks::{HookLoadOutput, HookSideEffects};
use crate::module_type::ModuleType;
use crate::mime::{image_mime, mime_of};
use crate::text::{split, split_seq, str_eq};

verus! {

/// The path that a specifier was resolved to; an ignored one has no source.
#[derive(Debug)]
pub struct ResolvedPath {
    pub path: String,
    pub ignored: bool,
}

/// How the source is got once the plugins have had their say.
#[derive(Debug)]
pub enum LoadPlan {
    /// The source is known.
    Loaded(String),
    /// Read the file's bytes; the source is their standard base64.
    ReadBase64,
    /// Read the file's bytes; the source is a data URL of this media type
    /// around their URL-safe base64.
    ReadDataUrl { mime: &'static str },
    /// Read the file as text; the source is a data URL of this media type
    /// around the text.
    ReadTextDataUrl { mime: &'static str },
    /// Read the file as text; that is the source.
    ReadText,
}

/// The plan with its strings as texts.
pub ghost enum LoadPlanView {
    Loaded(Seq<char>),
    ReadBase64,
    ReadDataUrl { mime: Seq<char> },
    ReadTextDataUrl { mime: Seq<char> },
    ReadText,
}

impl View for LoadPlan {
    type V = LoadPlanView;

    open spec fn view(&self) -> LoadPlanView {
        match *self {
            LoadPlan::Loaded(source) => LoadPlanView::Loaded(source@),
            LoadPlan::ReadBase64 => LoadPlanView::ReadBase64,
            LoadPlan::ReadDataUrl { mime } => LoadPlanView::ReadDataUrl { mime: mime@ },
            LoadPlan::ReadTextDataUrl { mime } => LoadPlanView::ReadTextDataUrl { mime: mime@ },
            LoadPlan::ReadText => LoadPlanView::ReadText,
        }
    }
}

/// What stands behind the last dot of `path`: the whole of it where it has
/// no dot.
pub open spec fn extension_of(path: Seq<char>) -> Seq<char> {
    split_seq(path, '.').last()
}

/// The extensions of the images that can become a data URL.
pub open spec fn inlined_image(extension: Seq<char>) -> bool {
    extension == "png"@ || extension == "jpg"@ || extension == "jpeg"@ || extension == "gif"@
        || extension == "webp"@ || extension == "ico"@ || extension == "svg"@
}

/// What is said of a file that cannot become a data URL.
pub open spec fn unsupported_image_message(path: Seq<char>) -> Seq<char> {
    "Unsupported image extension: "@ + path
}

/// How a file of `module_type` at `path` is read, or the message that
/// refuses it.
pub open spec fn read_plan(module_type: ModuleType, path: Seq<char>) -> Result<
    LoadPlanView,
    Seq<char>,
> {
    match module_type {
        ModuleType::Base64 | ModuleType::Binary => Ok(LoadPlanView::ReadBase64),
        ModuleType::DataUrl => {
            let extension = extension_of(path);
            if !inlined_image(extension) {
                Err(unsupported_image_message(path))
            } else if extension == "svg"@ {
                Ok(LoadPlanView::ReadTextDataUrl { mime: mime_of(extension)->0 })
            } else {
                Ok(LoadPlanView::ReadDataUrl { mime: mime_of(extension)->0 })
            }
        },
        _ => Ok(LoadPlanView::ReadText),
    }
}

/// Whether the loader can decide on this module: an image to inline must
/// have a media type unless it is refused anyway.
pub open spec fn decidable(module_type: ModuleType, path: Seq<char>) -> bool {
    module_type == ModuleType::DataUrl && inlined_image(extension_of(path)) ==> mime_of(
        extension_of(path),
    ) is Some
}

/// `data:<mime>;base64,<content>`
pub open spec fn data_url(mime: Seq<char>, content: Seq<char>) -> Seq<char> {
    "data:"@ + mime + ";base64,"@ + content
}

/// The source that a plan and the content read for it give.
pub open spec fn loaded_source(plan: LoadPlanView, content: Seq<char>) -> Seq<char> {
    match plan {
        LoadPlanView::Loaded(source) => source,
        LoadPlanView::ReadDataUrl { mime } => data_url(mime, content),
        LoadPlanView::ReadTextDataUrl { mime } => data_url(mime, content),
        _ => content,
    }
}

/// What stands behind the last dot of `path`.
pub fn path_extension(path: &str) -> (extension: String)
    ensures
        extension@ == extension_of(path@),
{
    let mut parts = split(path, '.');
    match parts.pop() {
        Some(last) => last,
        None => String::new(),
    }
}

/// Decides where the source of a module comes from.
///
/// What a plugin loaded wins: its code is the source, its source map joins
/// the chain, and its side effects replace those known. Else an ignored
/// path has the empty source, and any other is read as its type asks:
/// bytes to base64, an image to a data URL, everything else as text. An
/// image of an extension that cannot be inlined is refused.
pub fn load_source<M>(
    loaded: Option<HookLoadOutput<M>>,
    resolved_path: &ResolvedPath,
    module_type: ModuleType,
    sourcemap_chain: &mut Vec<M>,
    side_effects: &mut Option<HookSideEffects>,
) -> (r: Result<LoadPlan, String>)
    requires
        loaded is None && !resolved_path.ignored ==> decidable(module_type, resolved_path.path@),
    ensures
        match loaded {
            Some(output) => {
                &&& r matches Ok(plan) && plan@ == LoadPlanView::Loaded(output.code@)
                &&& final(sourcemap_chain)@ == match output.map {
                    Some(map) => old(sourcemap_chain)@.push(map),
                    None => old(sourcemap_chain)@,
                }
                &&& *final(side_effects) == match output.side_effects {
                    Some(effects) => Some(effects),
                    None => *old(side_effects),
                }
            },
            None => {
                &&& final(sourcemap_chain)@ == old(sourcemap_chain)@
                &&& *final(side_effects) == *old(side_effects)
                &&& if resolved_path.ignored {
                    r matches Ok(plan) && plan@ == LoadPlanView::Loaded(Seq::empty())
                } else {
                    match read_plan(module_type, resolved_path.path@) {
                        Ok(wanted) => r matches Ok(plan) && plan@ == wanted,
                        Err(message) => r matches Err(m) && m@ == message,
                    }
                }
            },
        },
{
    match loaded {
        Some(output) => {
            if let Some(map) = output.map {
                sourcemap_chain.push(map);
            }
            if let Some(effects) = output.side_effects {
                *side_effects = Some(effects);
            }
            Ok(LoadPlan::Loaded(output.code))
        },
        None => {
            if resolved_path.ignored {
                Ok(LoadPlan::Loaded(String::new()))
            } else {
                match module_type {
                    ModuleType::Base64 | ModuleType::Binary => Ok(LoadPlan::ReadBase64),
                    ModuleType::DataUrl => {
                        let extension = path_extension(resolved_path.path.as_str());
                        let ext = extension.as_str();
                        let inlined = str_eq(ext, "png") || str_eq(ext, "jpg") || str_eq(
                            ext,
                            "jpeg",
                        ) || str_eq(ext, "gif") || str_eq(ext, "webp") || str_eq(ext, "ico")
                            || str_eq(ext, "svg");
                        if !inlined {
                            let mut message = String::new();
                            message.append("Unsupported image extension: ");
                            message.append(resolved_path.path.as_str());
                            return Err(message);
                        }
                        let mime = match image_mime(ext) {
                            Some(mime) => mime,
                            None => unreached(),
                        };
                        if str_eq(ext, "svg") {
                            Ok(LoadPlan::ReadTextDataUrl { mime })
                        } else {
                            Ok(LoadPlan::ReadDataUrl { mime })
                        }
                    },
                    _ => Ok(LoadPlan::ReadText),
                }
            }
        },
    }
}

/// Whether an image at `path` can be loaded as a data URL without more
/// ado: its extension has a media type, or is refused.
pub fn can_decide(module_type: ModuleType, path: &str) -> (b: bool)
    ensures
        b == decidable(module_type, path@),
{
    if module_type == ModuleType::DataUrl {
        let extension = path_extension(path);
        let ext = extension.as_str();
        let inlined = str_eq(ext, "png") || str_eq(ext, "jpg") || str_eq(ext, "jpeg") || str_eq(
            ext,
            "gif",
        ) || str_eq(ext, "webp") || str_eq(ext, "ico") || str_eq(ext, "svg");
        !inlined || image_mime(ext).is_some()
    } else {
        true
    }
}

/// The source, from the plan and the content that was read for it:
/// base64 or text as it is, an image inside its data URL. For a source that
/// was known nothing is read, and `content` is not looked at.
pub fn finish_load(plan: LoadPlan, content: String) -> (source: String)
    ensures
        source@ == loaded_source(plan@, content@),
{
    match plan {
        LoadPlan::Loaded(source) => source,
        LoadPlan::ReadDataUrl { mime } | LoadPlan::ReadTextDataUrl { mime } => {
            let mut source = String::new();
            source.append("data:");
            source.append(mime);
            source.append(";base64,");
            source.append(content.as_str());
            source
        },
        _ => content,
    }
}

} // verus!
