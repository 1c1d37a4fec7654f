//! Tray-icon decisions: which icon file to use, how it is decoded, what the
//! tray menu's events mean, and what each failure reports.
use vstd::prelude::*;
use vstd::string::StringExecFns;
use image::GenericImageView;
use crate::console::Notice;
use crate::text::concat;

verus! {

/// The icon files that ship with the program, in the folder `assets`.
#[derive(Debug, Clone, Copy)]
pub struct Assets;

impl Assets {
    /// The folder that holds the icon files.
    pub fn folder() -> (r: String)
        ensures
            r@ == "assets"@,
    {
        String::from_str("assets")
    }

    /// The icon file names, in the order they are looked for.
    pub fn icon_names() -> (r: Vec<String>)
        ensures
            r@.len() == 2,
            r@[0]@ == "icon.png"@,
            r@[1]@ == "icon.ico"@,
    {
        let mut r: Vec<String> = Vec::new();
        r.push(String::from_str("icon.png"));
        r.push(String::from_str("icon.ico"));
        r
    }
}

/// A directory that icon files are looked for under.
#[derive(Debug, Clone, Copy, PartialEq, Eq, Structural)]
pub enum SearchBase {
    /// The working directory.
    WorkingDir,
    /// The directory that holds the executable.
    ExecutableDir,
}

/// An icon file to look for on disk: the file `name` in the folder `assets`
/// under `base`.
#[derive(Debug, Clone)]
pub struct IconCandidate {
    pub base: SearchBase,
    pub name: String,
}

impl Assets {
    /// Where the icon is looked for on disk, in order: `icon.png` under the
    /// working directory, then under the executable's directory, then
    /// `icon.ico` under each.
    pub fn icon_candidates() -> (r: Vec<IconCandidate>)
        ensures
            r@.len() == 4,
            r@[0].base == SearchBase::WorkingDir && r@[0].name@ == "icon.png"@,
            r@[1].base == SearchBase::ExecutableDir && r@[1].name@ == "icon.png"@,
            r@[2].base == SearchBase::WorkingDir && r@[2].name@ == "icon.ico"@,
            r@[3].base == SearchBase::ExecutableDir && r@[3].name@ == "icon.ico"@,
    {
        let mut r: Vec<IconCandidate> = Vec::new();
        r.push(IconCandidate { base: SearchBase::WorkingDir, name: String::from_str("icon.png") });
        r.push(IconCandidate { base: SearchBase::ExecutableDir, name: String::from_str("icon.png") });
        r.push(IconCandidate { base: SearchBase::WorkingDir, name: String::from_str("icon.ico") });
        r.push(IconCandidate { base: SearchBase::ExecutableDir, name: String::from_str("icon.ico") });
        r
    }
}

/// The image formats that the tray icon can be read from.
#[derive(Debug, Clone, Copy, PartialEq, Eq, Structural)]
pub enum IconFormat {
    Png,
    Ico,
}

/// The icon format that a file extension names.
pub open spec fn format_of_extension(ext: Seq<char>) -> Option<IconFormat> {
    if ext == "png"@ {
        Some(IconFormat::Png)
    } else if ext == "ico"@ {
        Some(IconFormat::Ico)
    } else {
        None
    }
}

/// The icon format that the file extension `ext` names, if any.
pub fn icon_format(ext: &String) -> (r: Option<IconFormat>)
    ensures
        r == format_of_extension(ext@),
{
    if crate::text::same_text(ext, "png") {
        Some(IconFormat::Png)
    } else if crate::text::same_text(ext, "ico") {
        Some(IconFormat::Ico)
    } else {
        None
    }
}

/// The bytes of an icon file and its extension.
#[derive(Debug, Clone)]
pub struct IconFile {
    pub bytes: Vec<u8>,
    pub ext: String,
}

/// The first icon file that was found, going through the candidates in
/// search order.
pub fn first_found(found: Vec<Option<IconFile>>) -> (r: Option<IconFile>)
    ensures
        r is None <==> forall|i: int| 0 <= i < found@.len() ==> found@[i] is None,
        r is Some ==> exists|i: int|
            0 <= i < found@.len() && found@[i] == r && forall|j: int|
                0 <= j < i ==> found@[j] is None,
{
    let ghost all = found@;
    let ghost mut k: int = 0;
    let mut rest = found;
    while rest.len() > 0
        invariant
            all == found@,
            0 <= k <= all.len(),
            rest@ == all.subrange(k, all.len() as int),
            forall|j: int| 0 <= j < k ==> all[j] is None,
        decreases rest@.len(),
    {
        let x = rest.remove(0);
        assert(x == all[k]);
        if x.is_some() {
            assert(found@[k] == x);
            return x;
        }
        proof {
            k = k + 1;
        }
        assert(rest@ =~= all.subrange(k, all.len() as int));
    }
    None
}

/// The icon to use: the one found on disk, else the embedded PNG, else the
/// embedded ICO.
pub fn choose_icon(
    on_disk: Option<IconFile>,
    embedded_png: Option<Vec<u8>>,
    embedded_ico: Option<Vec<u8>>,
) -> (r: Option<IconFile>)
    ensures
        on_disk is Some ==> r == on_disk,
        on_disk is None && embedded_png is Some ==> (r matches Some(f) && f.bytes
            == embedded_png->0 && f.ext@ == "png"@),
        on_disk is None && embedded_png is None && embedded_ico is Some ==> (r matches Some(f)
            && f.bytes == embedded_ico->0 && f.ext@ == "ico"@),
        on_disk is None && embedded_png is None && embedded_ico is None ==> r is None,
{
    match on_disk {
        Some(f) => Some(f),
        None => match embedded_png {
            Some(b) => Some(IconFile { bytes: b, ext: String::from_str("png") }),
            None => match embedded_ico {
                Some(b) => Some(IconFile { bytes: b, ext: String::from_str("ico") }),
                None => None,
            },
        },
    }
}

/// RGBA pixels with the image's width and height.
#[derive(Debug, Clone)]
pub struct IconRgba {
    pub rgba: Vec<u8>,
    pub width: u32,
    pub height: u32,
}

/// Why the tray icon could not be set up.
#[derive(Debug, Clone)]
pub enum TrayFailure {
    /// No icon file on disk and none embedded.
    NoIcon,
    /// The icon file could not be decoded; the decoder's message.
    LoadImage(String),
    /// The pixels were refused as a tray icon; the message.
    CreateIcon(String),
    /// The icon file has an extension other than `png` or `ico`.
    UnsupportedType(String),
    /// The exit item could not be added to the menu; the message.
    AppendMenu(String),
    /// The tray icon could not be built; the message.
    BuildTray(String),
}

/// What `image::load_from_memory_with_format` makes of `bytes` read as ICO:
/// the RGBA pixels, width and height, or the text of the error.
pub uninterp spec fn ico_decoding(bytes: Seq<u8>) -> Result<(Seq<u8>, u32, u32), Seq<char>>;

/// The contents of a decoding result.
pub open spec fn decoding_view(r: Result<(Vec<u8>, u32, u32), String>) -> Result<
    (Seq<u8>, u32, u32),
    Seq<char>,
> {
    match r {
        Ok((p, w, h)) => Ok((p@, w, h)),
        Err(e) => Err(e@),
    }
}

/// Decodes `bytes`, guessing the image format from its contents.
///
/// Trusted: calls `image::load_from_memory`, then `dimensions` and
/// `to_rgba8`, or formats the `ImageError`. Nothing is stated of the outcome:
/// besides the bytes, it depends on the format-detection and decoding hooks
/// that any code in the process may register with the `image` crate.
#[verifier::external_body]
fn decode_guessed(bytes: &[u8]) -> (r: Result<(Vec<u8>, u32, u32), String>) {
    match image::load_from_memory(bytes) {
        Ok(img) => {
            let (width, height) = img.dimensions();
            Ok((img.to_rgba8().into_raw(), width, height))
        },
        Err(e) => Err(e.to_string()),
    }
}

/// Decodes `bytes` as an ICO file.
///
/// Trusted: calls `image::load_from_memory_with_format` with
/// `ImageFormat::Ico`, then `dimensions` and `to_rgba8`, or formats the
/// `ImageError`; the contract only names the outcome, which depends on the
/// bytes alone.
#[verifier::external_body]
fn decode_ico(bytes: &[u8]) -> (r: Result<(Vec<u8>, u32, u32), String>)
    ensures
        decoding_view(r) == ico_decoding(bytes@),
{
    match image::load_from_memory_with_format(bytes, image::ImageFormat::Ico) {
        Ok(img) => {
            let (width, height) = img.dimensions();
            Ok((img.to_rgba8().into_raw(), width, height))
        },
        Err(e) => Err(e.to_string()),
    }
}

/// The icon pixels that a decoding result gives, or the failure it reports.
pub open spec fn icon_of_decoding(d: Result<(Seq<u8>, u32, u32), Seq<char>>) -> Result<
    (Seq<u8>, u32, u32),
    TrayFailureView,
> {
    match d {
        Ok(t) => Ok(t),
        Err(e) => Err(TrayFailureView::LoadImage(e)),
    }
}

/// The contents of a [`TrayFailure`].
pub enum TrayFailureView {
    NoIcon,
    LoadImage(Seq<char>),
    CreateIcon(Seq<char>),
    UnsupportedType(Seq<char>),
    AppendMenu(Seq<char>),
    BuildTray(Seq<char>),
}

impl View for TrayFailure {
    type V = TrayFailureView;

    open spec fn view(&self) -> TrayFailureView {
        match self {
            TrayFailure::NoIcon => TrayFailureView::NoIcon,
            TrayFailure::LoadImage(e) => TrayFailureView::LoadImage(e@),
            TrayFailure::CreateIcon(e) => TrayFailureView::CreateIcon(e@),
            TrayFailure::UnsupportedType(e) => TrayFailureView::UnsupportedType(e@),
            TrayFailure::AppendMenu(e) => TrayFailureView::AppendMenu(e@),
            TrayFailure::BuildTray(e) => TrayFailureView::BuildTray(e@),
        }
    }
}

/// The contents of an icon result.
pub open spec fn icon_result_view(r: Result<IconRgba, TrayFailure>) -> Result<
    (Seq<u8>, u32, u32),
    TrayFailureView,
> {
    match r {
        Ok(i) => Ok((i.rgba@, i.width, i.height)),
        Err(f) => Err(f@),
    }
}

/// The icon pixels from a decoding result, or the failure to report.
pub fn icon_from_decoding(d: Result<(Vec<u8>, u32, u32), String>) -> (r: Result<
    IconRgba,
    TrayFailure,
>)
    ensures
        icon_result_view(r) == icon_of_decoding(decoding_view(d)),
{
    match d {
        Ok((rgba, width, height)) => Ok(IconRgba { rgba, width, height }),
        Err(e) => Err(TrayFailure::LoadImage(e)),
    }
}

/// Decodes the icon file `f` into RGBA pixels: PNG files with the format
/// guessed from their contents, ICO files as ICO; other extensions are
/// refused.
pub fn load_icon(f: &IconFile) -> (r: Result<IconRgba, TrayFailure>)
    ensures
        format_of_extension(f.ext@) == Some(IconFormat::Png) ==> (r is Ok || r matches Err(
            TrayFailure::LoadImage(_),
        )),
        format_of_extension(f.ext@) == Some(IconFormat::Ico) ==> icon_result_view(r)
            == icon_of_decoding(ico_decoding(f.bytes@)),
        format_of_extension(f.ext@) is None ==> icon_result_view(r) == Err::<
            (Seq<u8>, u32, u32),
            TrayFailureView,
        >(TrayFailureView::UnsupportedType(f.ext@)),
{
    match icon_format(&f.ext) {
        Some(IconFormat::Png) => icon_from_decoding(decode_guessed(f.bytes.as_slice())),
        Some(IconFormat::Ico) => icon_from_decoding(decode_ico(f.bytes.as_slice())),
        None => Err(TrayFailure::UnsupportedType(f.ext.clone())),
    }
}

/// The text that reports the failure `f`, on the console (`dev_mode`) or in a
/// dialog.
pub open spec fn failure_text(f: TrayFailureView, dev_mode: bool) -> Seq<char> {
    if dev_mode {
        match f {
            TrayFailureView::NoIcon => "[Tray] No icon file found in expected locations or embedded assets"@,
            TrayFailureView::LoadImage(e) => "[Tray] Failed to load icon image: "@ + e,
            TrayFailureView::CreateIcon(e) => "[Tray] Failed to create tray icon: "@ + e,
            TrayFailureView::UnsupportedType(e) => "[Tray] Unsupported icon type: "@ + e,
            TrayFailureView::AppendMenu(e) => "[Tray] Failed to append exit item: "@ + e,
            TrayFailureView::BuildTray(e) => "[Tray] Failed to create tray icon: "@ + e,
        }
    } else {
        match f {
            TrayFailureView::NoIcon => "No tray icon file found in expected locations or embedded in the executable."@,
            TrayFailureView::LoadImage(e) => "Failed to load icon image: "@ + e,
            TrayFailureView::CreateIcon(e) => "Failed to create tray icon: "@ + e,
            TrayFailureView::UnsupportedType(e) => "Unsupported icon type: "@ + e,
            TrayFailureView::AppendMenu(e) => "Failed to create tray menu: "@ + e,
            TrayFailureView::BuildTray(e) => "Failed to create tray icon: "@ + e,
        }
    }
}

impl TrayFailure {
    /// How this failure is reported: a console line while developing, a
    /// dialog otherwise.
    pub fn notice(&self, dev_mode: bool) -> (n: Notice)
        ensures
            dev_mode ==> (n matches Notice::Console(t) && t@ == failure_text(self@, true)),
            !dev_mode ==> (n matches Notice::Dialog(t) && t@ == failure_text(self@, false)),
    {
        if dev_mode {
            let t = match self {
                TrayFailure::NoIcon => String::from_str(
                    "[Tray] No icon file found in expected locations or embedded assets",
                ),
                TrayFailure::LoadImage(e) => concat("[Tray] Failed to load icon image: ", e.as_str()),
                TrayFailure::CreateIcon(e) => concat("[Tray] Failed to create tray icon: ", e.as_str()),
                TrayFailure::UnsupportedType(e) => concat("[Tray] Unsupported icon type: ", e.as_str()),
                TrayFailure::AppendMenu(e) => concat("[Tray] Failed to append exit item: ", e.as_str()),
                TrayFailure::BuildTray(e) => concat("[Tray] Failed to create tray icon: ", e.as_str()),
            };
            Notice::Console(t)
        } else {
            let t = match self {
                TrayFailure::NoIcon => String::from_str(
                    "No tray icon file found in expected locations or embedded in the executable.",
                ),
                TrayFailure::LoadImage(e) => concat("Failed to load icon image: ", e.as_str()),
                TrayFailure::CreateIcon(e) => concat("Failed to create tray icon: ", e.as_str()),
                TrayFailure::UnsupportedType(e) => concat("Unsupported icon type: ", e.as_str()),
                TrayFailure::AppendMenu(e) => concat("Failed to create tray menu: ", e.as_str()),
                TrayFailure::BuildTray(e) => concat("Failed to create tray icon: ", e.as_str()),
            };
            Notice::Dialog(t)
        }
    }
}

/// What a click in the tray menu asks for.
#[derive(Debug, Clone, Copy, PartialEq, Eq, Structural)]
pub enum MenuAction {
    /// Shut the server down.
    Exit,
    /// Nothing.
    Ignore,
}

/// The action that the menu item with id `id` asks for: only `exit` does
/// anything.
pub fn menu_action(id: &String) -> (a: MenuAction)
    ensures
        (a == MenuAction::Exit) == (id@ == "exit"@),
{
    if crate::text::same_text(id, "exit") {
        MenuAction::Exit
    } else {
        MenuAction::Ignore
    }
}

} // verus!
