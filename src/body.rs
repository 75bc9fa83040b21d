//! Media types: the top-level kind of a body and its fixed subtype.
use vstd::prelude::*;

use crate::error::ParserError;
use crate::text::{
    after, append_str, ascii_lower, ascii_lowercase, before, chars_of, eq_lit, find_char, find_from,
    lemma_find_from_at, lemma_find_from_bounds, slice_of,
};

verus! {

/// A body: its media type and its bytes.
#[derive(Debug, Clone, PartialEq, Eq)]
pub struct Body {
    pub content_type: ContentType,
    pub content: Vec<u8>,
}

/// A media type `top/sub`: the top-level kind carries its subtype.
#[derive(Debug, Clone, Copy, PartialEq, Eq, Structural)]
pub enum ContentType {
    Application(Application),
    Audio(Audio),
    Image(Image),
    Multipart(Multipart),
    Text(Text),
    Video(Video),
}

/// The subtypes of `application/...`.
#[allow(non_camel_case_types)]
#[derive(Debug, Clone, Copy, PartialEq, Eq, Structural)]
pub enum Application {
    EDI_X12,
    EDIFACT,
    javascript,
    octet_stream,
    ogg,
    pdf,
    xhtml_xml,
    x_shockwave_flash,
    json,
    ld_json,
    xml,
    zip,
    x_www_form_urlencoded,
    woff,
}

impl Application {
    /// The subtype as it is written on the wire.
    pub open spec fn spec_name(self) -> Seq<char> {
        match self {
            Application::EDI_X12 => "EDI-X12"@,
            Application::EDIFACT => "EDIFACT"@,
            Application::javascript => "javascript"@,
            Application::octet_stream => "octet-stream"@,
            Application::ogg => "ogg"@,
            Application::pdf => "pdf"@,
            Application::xhtml_xml => "xhtml+xml"@,
            Application::x_shockwave_flash => "x-shockwave-flash"@,
            Application::json => "json"@,
            Application::ld_json => "ld+json"@,
            Application::xml => "xml"@,
            Application::zip => "zip"@,
            Application::x_www_form_urlencoded => "x-www-form-urlencoded"@,
            Application::woff => "woff"@,
        }
    }

    /// The subtype written as `s`, if any.
    pub open spec fn spec_from_name(s: Seq<char>) -> Option<Application> {
        if s == "EDI-X12"@ {
            Some(Application::EDI_X12)
        } else if s == "EDIFACT"@ {
            Some(Application::EDIFACT)
        } else if s == "javascript"@ {
            Some(Application::javascript)
        } else if s == "octet-stream"@ {
            Some(Application::octet_stream)
        } else if s == "ogg"@ {
            Some(Application::ogg)
        } else if s == "pdf"@ {
            Some(Application::pdf)
        } else if s == "xhtml+xml"@ {
            Some(Application::xhtml_xml)
        } else if s == "x-shockwave-flash"@ {
            Some(Application::x_shockwave_flash)
        } else if s == "json"@ {
            Some(Application::json)
        } else if s == "ld+json"@ {
            Some(Application::ld_json)
        } else if s == "xml"@ {
            Some(Application::xml)
        } else if s == "zip"@ {
            Some(Application::zip)
        } else if s == "x-www-form-urlencoded"@ {
            Some(Application::x_www_form_urlencoded)
        } else if s == "woff"@ {
            Some(Application::woff)
        } else {
            None
        }
    }

    /// The subtype as it is written on the wire.
    pub fn name(&self) -> (r: &'static str)
        ensures
            r@ == self.spec_name(),
    {
        match self {
            Application::EDI_X12 => "EDI-X12",
            Application::EDIFACT => "EDIFACT",
            Application::javascript => "javascript",
            Application::octet_stream => "octet-stream",
            Application::ogg => "ogg",
            Application::pdf => "pdf",
            Application::xhtml_xml => "xhtml+xml",
            Application::x_shockwave_flash => "x-shockwave-flash",
            Application::json => "json",
            Application::ld_json => "ld+json",
            Application::xml => "xml",
            Application::zip => "zip",
            Application::x_www_form_urlencoded => "x-www-form-urlencoded",
            Application::woff => "woff",
        }
    }

    /// Reads a subtype from its written form.
    pub fn from_name(s: &Vec<char>) -> (r: Option<Application>)
        ensures
            r == Application::spec_from_name(s@),
    {
        if eq_lit(s, "EDI-X12") {
            Some(Application::EDI_X12)
        } else if eq_lit(s, "EDIFACT") {
            Some(Application::EDIFACT)
        } else if eq_lit(s, "javascript") {
            Some(Application::javascript)
        } else if eq_lit(s, "octet-stream") {
            Some(Application::octet_stream)
        } else if eq_lit(s, "ogg") {
            Some(Application::ogg)
        } else if eq_lit(s, "pdf") {
            Some(Application::pdf)
        } else if eq_lit(s, "xhtml+xml") {
            Some(Application::xhtml_xml)
        } else if eq_lit(s, "x-shockwave-flash") {
            Some(Application::x_shockwave_flash)
        } else if eq_lit(s, "json") {
            Some(Application::json)
        } else if eq_lit(s, "ld+json") {
            Some(Application::ld_json)
        } else if eq_lit(s, "xml") {
            Some(Application::xml)
        } else if eq_lit(s, "zip") {
            Some(Application::zip)
        } else if eq_lit(s, "x-www-form-urlencoded") {
            Some(Application::x_www_form_urlencoded)
        } else if eq_lit(s, "woff") {
            Some(Application::woff)
        } else {
            None
        }
    }
}

/// The subtypes of `audio/...`.
#[allow(non_camel_case_types)]
#[derive(Debug, Clone, Copy, PartialEq, Eq, Structural)]
pub enum Audio {
    mpeg,
    x_ms_wma,
    vnd_rn_realaudio,
    x_wav,
}

impl Audio {
    /// The subtype as it is written on the wire.
    pub open spec fn spec_name(self) -> Seq<char> {
        match self {
            Audio::mpeg => "mpeg"@,
            Audio::x_ms_wma => "x-ms-wma"@,
            Audio::vnd_rn_realaudio => "vnd.rn-realaudio"@,
            Audio::x_wav => "x-wav"@,
        }
    }

    /// The subtype written as `s`, if any.
    pub open spec fn spec_from_name(s: Seq<char>) -> Option<Audio> {
        if s == "mpeg"@ {
            Some(Audio::mpeg)
        } else if s == "x-ms-wma"@ {
            Some(Audio::x_ms_wma)
        } else if s == "vnd.rn-realaudio"@ {
            Some(Audio::vnd_rn_realaudio)
        } else if s == "x-wav"@ {
            Some(Audio::x_wav)
        } else {
            None
        }
    }

    /// The subtype as it is written on the wire.
    pub fn name(&self) -> (r: &'static str)
        ensures
            r@ == self.spec_name(),
    {
        match self {
            Audio::mpeg => "mpeg",
            Audio::x_ms_wma => "x-ms-wma",
            Audio::vnd_rn_realaudio => "vnd.rn-realaudio",
            Audio::x_wav => "x-wav",
        }
    }

    /// Reads a subtype from its written form.
    pub fn from_name(s: &Vec<char>) -> (r: Option<Audio>)
        ensures
            r == Audio::spec_from_name(s@),
    {
        if eq_lit(s, "mpeg") {
            Some(Audio::mpeg)
        } else if eq_lit(s, "x-ms-wma") {
            Some(Audio::x_ms_wma)
        } else if eq_lit(s, "vnd.rn-realaudio") {
            Some(Audio::vnd_rn_realaudio)
        } else if eq_lit(s, "x-wav") {
            Some(Audio::x_wav)
        } else {
            None
        }
    }
}

/// The subtypes of `image/...`.
#[allow(non_camel_case_types)]
#[derive(Debug, Clone, Copy, PartialEq, Eq, Structural)]
pub enum Image {
    gif,
    jpeg,
    png,
    tiff,
    vnd_microsoft_icon,
    x_icon,
    vnd_djvu,
    svg_xml,
}

impl Image {
    /// The subtype as it is written on the wire.
    pub open spec fn spec_name(self) -> Seq<char> {
        match self {
            Image::gif => "gif"@,
            Image::jpeg => "jpeg"@,
            Image::png => "png"@,
            Image::tiff => "tiff"@,
            Image::vnd_microsoft_icon => "vnd.microsoft.icon"@,
            Image::x_icon => "x-icon"@,
            Image::vnd_djvu => "vnd.djvu"@,
            Image::svg_xml => "svg+xml"@,
        }
    }

    /// The subtype written as `s`, if any.
    pub open spec fn spec_from_name(s: Seq<char>) -> Option<Image> {
        if s == "gif"@ {
            Some(Image::gif)
        } else if s == "jpeg"@ {
            Some(Image::jpeg)
        } else if s == "png"@ {
            Some(Image::png)
        } else if s == "tiff"@ {
            Some(Image::tiff)
        } else if s == "vnd.microsoft.icon"@ {
            Some(Image::vnd_microsoft_icon)
        } else if s == "x-icon"@ {
            Some(Image::x_icon)
        } else if s == "vnd.djvu"@ {
            Some(Image::vnd_djvu)
        } else if s == "svg+xml"@ {
            Some(Image::svg_xml)
        } else {
            None
        }
    }

    /// The subtype as it is written on the wire.
    pub fn name(&self) -> (r: &'static str)
        ensures
            r@ == self.spec_name(),
    {
        match self {
            Image::gif => "gif",
            Image::jpeg => "jpeg",
            Image::png => "png",
            Image::tiff => "tiff",
            Image::vnd_microsoft_icon => "vnd.microsoft.icon",
            Image::x_icon => "x-icon",
            Image::vnd_djvu => "vnd.djvu",
            Image::svg_xml => "svg+xml",
        }
    }

    /// Reads a subtype from its written form.
    pub fn from_name(s: &Vec<char>) -> (r: Option<Image>)
        ensures
            r == Image::spec_from_name(s@),
    {
        if eq_lit(s, "gif") {
            Some(Image::gif)
        } else if eq_lit(s, "jpeg") {
            Some(Image::jpeg)
        } else if eq_lit(s, "png") {
            Some(Image::png)
        } else if eq_lit(s, "tiff") {
            Some(Image::tiff)
        } else if eq_lit(s, "vnd.microsoft.icon") {
            Some(Image::vnd_microsoft_icon)
        } else if eq_lit(s, "x-icon") {
            Some(Image::x_icon)
        } else if eq_lit(s, "vnd.djvu") {
            Some(Image::vnd_djvu)
        } else if eq_lit(s, "svg+xml") {
            Some(Image::svg_xml)
        } else {
            None
        }
    }
}

/// The subtypes of `multipart/...`.
#[allow(non_camel_case_types)]
#[derive(Debug, Clone, Copy, PartialEq, Eq, Structural)]
pub enum Multipart {
    mixed,
    alternative,
    related,
}

impl Multipart {
    /// The subtype as it is written on the wire.
    pub open spec fn spec_name(self) -> Seq<char> {
        match self {
            Multipart::mixed => "mixed"@,
            Multipart::alternative => "alternative"@,
            Multipart::related => "related"@,
        }
    }

    /// The subtype written as `s`, if any.
    pub open spec fn spec_from_name(s: Seq<char>) -> Option<Multipart> {
        if s == "mixed"@ {
            Some(Multipart::mixed)
        } else if s == "alternative"@ {
            Some(Multipart::alternative)
        } else if s == "related"@ {
            Some(Multipart::related)
        } else {
            None
        }
    }

    /// The subtype as it is written on the wire.
    pub fn name(&self) -> (r: &'static str)
        ensures
            r@ == self.spec_name(),
    {
        match self {
            Multipart::mixed => "mixed",
            Multipart::alternative => "alternative",
            Multipart::related => "related",
        }
    }

    /// Reads a subtype from its written form.
    pub fn from_name(s: &Vec<char>) -> (r: Option<Multipart>)
        ensures
            r == Multipart::spec_from_name(s@),
    {
        if eq_lit(s, "mixed") {
            Some(Multipart::mixed)
        } else if eq_lit(s, "alternative") {
            Some(Multipart::alternative)
        } else if eq_lit(s, "related") {
            Some(Multipart::related)
        } else {
            None
        }
    }
}

/// The subtypes of `text/...`.
#[allow(non_camel_case_types)]
#[derive(Debug, Clone, Copy, PartialEq, Eq, Structural)]
pub enum Text {
    css,
    csv,
    html,
    javascript,
    plain,
    xml,
}

impl Text {
    /// The subtype as it is written on the wire.
    pub open spec fn spec_name(self) -> Seq<char> {
        match self {
            Text::css => "css"@,
            Text::csv => "csv"@,
            Text::html => "html"@,
            Text::javascript => "javascript"@,
            Text::plain => "plain"@,
            Text::xml => "xml"@,
        }
    }

    /// The subtype written as `s`, if any.
    pub open spec fn spec_from_name(s: Seq<char>) -> Option<Text> {
        if s == "css"@ {
            Some(Text::css)
        } else if s == "csv"@ {
            Some(Text::csv)
        } else if s == "html"@ {
            Some(Text::html)
        } else if s == "javascript"@ {
            Some(Text::javascript)
        } else if s == "plain"@ {
            Some(Text::plain)
        } else if s == "xml"@ {
            Some(Text::xml)
        } else {
            None
        }
    }

    /// The subtype as it is written on the wire.
    pub fn name(&self) -> (r: &'static str)
        ensures
            r@ == self.spec_name(),
    {
        match self {
            Text::css => "css",
            Text::csv => "csv",
            Text::html => "html",
            Text::javascript => "javascript",
            Text::plain => "plain",
            Text::xml => "xml",
        }
    }

    /// Reads a subtype from its written form.
    pub fn from_name(s: &Vec<char>) -> (r: Option<Text>)
        ensures
            r == Text::spec_from_name(s@),
    {
        if eq_lit(s, "css") {
            Some(Text::css)
        } else if eq_lit(s, "csv") {
            Some(Text::csv)
        } else if eq_lit(s, "html") {
            Some(Text::html)
        } else if eq_lit(s, "javascript") {
            Some(Text::javascript)
        } else if eq_lit(s, "plain") {
            Some(Text::plain)
        } else if eq_lit(s, "xml") {
            Some(Text::xml)
        } else {
            None
        }
    }
}

/// The subtypes of `video/...`.
#[allow(non_camel_case_types)]
#[derive(Debug, Clone, Copy, PartialEq, Eq, Structural)]
pub enum Video {
    mpeg,
    mp4,
    quicktime,
    x_ms_wmv,
    x_msvideo,
    x_flv,
    webm,
}

impl Video {
    /// The subtype as it is written on the wire.
    pub open spec fn spec_name(self) -> Seq<char> {
        match self {
            Video::mpeg => "mpeg"@,
            Video::mp4 => "mp4"@,
            Video::quicktime => "quicktime"@,
            Video::x_ms_wmv => "x-ms-wmv"@,
            Video::x_msvideo => "x-msvideo"@,
            Video::x_flv => "x-flv"@,
            Video::webm => "webm"@,
        }
    }

    /// The subtype written as `s`, if any.
    pub open spec fn spec_from_name(s: Seq<char>) -> Option<Video> {
        if s == "mpeg"@ {
            Some(Video::mpeg)
        } else if s == "mp4"@ {
            Some(Video::mp4)
        } else if s == "quicktime"@ {
            Some(Video::quicktime)
        } else if s == "x-ms-wmv"@ {
            Some(Video::x_ms_wmv)
        } else if s == "x-msvideo"@ {
            Some(Video::x_msvideo)
        } else if s == "x-flv"@ {
            Some(Video::x_flv)
        } else if s == "webm"@ {
            Some(Video::webm)
        } else {
            None
        }
    }

    /// The subtype as it is written on the wire.
    pub fn name(&self) -> (r: &'static str)
        ensures
            r@ == self.spec_name(),
    {
        match self {
            Video::mpeg => "mpeg",
            Video::mp4 => "mp4",
            Video::quicktime => "quicktime",
            Video::x_ms_wmv => "x-ms-wmv",
            Video::x_msvideo => "x-msvideo",
            Video::x_flv => "x-flv",
            Video::webm => "webm",
        }
    }

    /// Reads a subtype from its written form.
    pub fn from_name(s: &Vec<char>) -> (r: Option<Video>)
        ensures
            r == Video::spec_from_name(s@),
    {
        if eq_lit(s, "mpeg") {
            Some(Video::mpeg)
        } else if eq_lit(s, "mp4") {
            Some(Video::mp4)
        } else if eq_lit(s, "quicktime") {
            Some(Video::quicktime)
        } else if eq_lit(s, "x-ms-wmv") {
            Some(Video::x_ms_wmv)
        } else if eq_lit(s, "x-msvideo") {
            Some(Video::x_msvideo)
        } else if eq_lit(s, "x-flv") {
            Some(Video::x_flv)
        } else if eq_lit(s, "webm") {
            Some(Video::webm)
        } else {
            None
        }
    }
}

impl ContentType {
    /// The top-level kind as it is written on the wire.
    pub open spec fn spec_top(self) -> Seq<char> {
        match self {
            ContentType::Application(_) => "application"@,
            ContentType::Audio(_) => "audio"@,
            ContentType::Image(_) => "image"@,
            ContentType::Multipart(_) => "multipart"@,
            ContentType::Text(_) => "text"@,
            ContentType::Video(_) => "video"@,
        }
    }

    /// The subtype as it is written on the wire.
    pub open spec fn spec_sub(self) -> Seq<char> {
        match self {
            ContentType::Application(v) => v.spec_name(),
            ContentType::Audio(v) => v.spec_name(),
            ContentType::Image(v) => v.spec_name(),
            ContentType::Multipart(v) => v.spec_name(),
            ContentType::Text(v) => v.spec_name(),
            ContentType::Video(v) => v.spec_name(),
        }
    }

    /// The written form `top/sub`.
    pub open spec fn spec_to_string(self) -> Seq<char> {
        self.spec_top() + "/"@ + self.spec_sub()
    }

    /// The media type written as `top` and `sub`, if any.
    pub open spec fn spec_from_parts(top: Seq<char>, sub: Seq<char>) -> Option<ContentType> {
        if top == "application"@ {
            match Application::spec_from_name(sub) {
                Some(v) => Some(ContentType::Application(v)),
                None => None,
            }
        } else if top == "audio"@ {
            match Audio::spec_from_name(sub) {
                Some(v) => Some(ContentType::Audio(v)),
                None => None,
            }
        } else if top == "image"@ {
            match Image::spec_from_name(sub) {
                Some(v) => Some(ContentType::Image(v)),
                None => None,
            }
        } else if top == "multipart"@ {
            match Multipart::spec_from_name(sub) {
                Some(v) => Some(ContentType::Multipart(v)),
                None => None,
            }
        } else if top == "text"@ {
            match Text::spec_from_name(sub) {
                Some(v) => Some(ContentType::Text(v)),
                None => None,
            }
        } else if top == "video"@ {
            match Video::spec_from_name(sub) {
                Some(v) => Some(ContentType::Video(v)),
                None => None,
            }
        } else {
            None
        }
    }

    /// The subtype field of a written media type: what follows the first `/`,
    /// up to a further `/`, without `;` parameters.
    pub open spec fn spec_sub_field(s: Seq<char>) -> Seq<char> {
        before(before(after(s, '/'), '/'), ';')
    }

    /// What `new` gives for the text `s`.
    pub open spec fn spec_new(s: Seq<char>) -> Result<ContentType, ParserError> {
        if find_from(s, '/', 0) == s.len() {
            Err(ParserError::InvalidContentType)
        } else {
            match ContentType::spec_from_parts(before(s, '/'), ContentType::spec_sub_field(s)) {
                Some(ct) => Ok(ct),
                None => Err(ParserError::InvalidContentType),
            }
        }
    }

    /// Reads a media type written as `top/sub`, where `sub` may carry `;`
    /// parameters, which are ignored.
    pub fn new(raw_str: &str) -> (r: Result<ContentType, ParserError>)
        ensures
            r == ContentType::spec_new(raw_str@),
    {
        let s = chars_of(raw_str);
        let n = s.len();
        let i = find_char(&s, '/', 0);
        if i == n {
            return Err(ParserError::InvalidContentType);
        }
        proof {
            lemma_find_from_bounds(s@, '/', 0);
        }
        let top = slice_of(&s, 0, i);
        let rest = slice_of(&s, i + 1, n);
        let j = find_char(&rest, '/', 0);
        proof {
            lemma_find_from_bounds(rest@, '/', 0);
        }
        let field = slice_of(&rest, 0, j);
        let k = find_char(&field, ';', 0);
        proof {
            lemma_find_from_bounds(field@, ';', 0);
        }
        let sub = slice_of(&field, 0, k);
        assert(sub@ == ContentType::spec_sub_field(s@));
        if eq_lit(&top, "application") {
            match Application::from_name(&sub) {
                Some(v) => Ok(ContentType::Application(v)),
                None => Err(ParserError::InvalidContentType),
            }
        } else if eq_lit(&top, "audio") {
            match Audio::from_name(&sub) {
                Some(v) => Ok(ContentType::Audio(v)),
                None => Err(ParserError::InvalidContentType),
            }
        } else if eq_lit(&top, "image") {
            match Image::from_name(&sub) {
                Some(v) => Ok(ContentType::Image(v)),
                None => Err(ParserError::InvalidContentType),
            }
        } else if eq_lit(&top, "multipart") {
            match Multipart::from_name(&sub) {
                Some(v) => Ok(ContentType::Multipart(v)),
                None => Err(ParserError::InvalidContentType),
            }
        } else if eq_lit(&top, "text") {
            match Text::from_name(&sub) {
                Some(v) => Ok(ContentType::Text(v)),
                None => Err(ParserError::InvalidContentType),
            }
        } else if eq_lit(&top, "video") {
            match Video::from_name(&sub) {
                Some(v) => Ok(ContentType::Video(v)),
                None => Err(ParserError::InvalidContentType),
            }
        } else {
            Err(ParserError::InvalidContentType)
        }
    }

    /// The written form `top/sub`.
    pub fn to_string(&self) -> (r: String)
        ensures
            r@ == self.spec_to_string(),
    {
        let (top, sub) = match self {
            ContentType::Application(v) => ("application/", v.name()),
            ContentType::Audio(v) => ("audio/", v.name()),
            ContentType::Image(v) => ("image/", v.name()),
            ContentType::Multipart(v) => ("multipart/", v.name()),
            ContentType::Text(v) => ("text/", v.name()),
            ContentType::Video(v) => ("video/", v.name()),
        };
        let mut out = String::new();
        append_str(&mut out, top);
        append_str(&mut out, sub);
        proof {
            reveal_strlit("application/");
            reveal_strlit("application");
            reveal_strlit("audio/");
            reveal_strlit("audio");
            reveal_strlit("image/");
            reveal_strlit("image");
            reveal_strlit("multipart/");
            reveal_strlit("multipart");
            reveal_strlit("text/");
            reveal_strlit("text");
            reveal_strlit("video/");
            reveal_strlit("video");
            reveal_strlit("/");
        }
        out
    }

    /// The media type of a file with extension `e`, by its lower-case form.
    pub open spec fn spec_from_extension(e: Seq<char>) -> Option<ContentType> {
        let l = ascii_lower(e);
        if l == "css"@ {
            Some(ContentType::Text(Text::css))
        } else if l == "csv"@ {
            Some(ContentType::Text(Text::csv))
        } else if l == "html"@ {
            Some(ContentType::Text(Text::html))
        } else if l == "js"@ || l == "cjs"@ || l == "mjs"@ {
            Some(ContentType::Text(Text::javascript))
        } else if l == "txt"@ {
            Some(ContentType::Text(Text::plain))
        } else if l == "xml"@ {
            Some(ContentType::Text(Text::xml))
        } else if l == "gif"@ {
            Some(ContentType::Image(Image::gif))
        } else if l == "jpg"@ || l == "jpeg"@ || l == "jpe"@ || l == "jif"@ || l == "jfif"@ || l == "jfi"@ {
            Some(ContentType::Image(Image::jpeg))
        } else if l == "png"@ {
            Some(ContentType::Image(Image::png))
        } else if l == "tiff"@ || l == "tif"@ {
            Some(ContentType::Image(Image::tiff))
        } else if l == "cur"@ {
            Some(ContentType::Image(Image::vnd_microsoft_icon))
        } else if l == "ico"@ {
            Some(ContentType::Image(Image::x_icon))
        } else if l == "djvu"@ || l == "djv"@ {
            Some(ContentType::Image(Image::vnd_djvu))
        } else if l == "svg"@ || l == "svgz"@ {
            Some(ContentType::Image(Image::svg_xml))
        } else if l == "ogg"@ || l == "ogv"@ || l == "oga"@ || l == "ogx"@ || l == "ogm"@ || l == "spx"@ || l == "opus"@ {
            Some(ContentType::Application(Application::ogg))
        } else if l == "pdf"@ {
            Some(ContentType::Application(Application::pdf))
        } else if l == "xhtml"@ {
            Some(ContentType::Application(Application::xhtml_xml))
        } else if l == "json"@ {
            Some(ContentType::Application(Application::json))
        } else if l == "jsonld"@ {
            Some(ContentType::Application(Application::ld_json))
        } else if l == "zip"@ || l == "zipx"@ {
            Some(ContentType::Application(Application::zip))
        } else if l == "woff"@ || l == "woff2"@ {
            Some(ContentType::Application(Application::woff))
        } else if l == "wma"@ {
            Some(ContentType::Audio(Audio::x_ms_wma))
        } else if l == "ra"@ || l == "ram"@ {
            Some(ContentType::Audio(Audio::vnd_rn_realaudio))
        } else if l == "wav"@ || l == "wave"@ {
            Some(ContentType::Audio(Audio::x_wav))
        } else if l == "mp4"@ || l == "m4a"@ || l == "m4p"@ || l == "m4b"@ || l == "m4r"@ || l == "m4v"@ {
            Some(ContentType::Video(Video::mp4))
        } else if l == "wmv"@ {
            Some(ContentType::Video(Video::x_ms_wmv))
        } else if l == "avi"@ {
            Some(ContentType::Video(Video::x_msvideo))
        } else if l == "webm"@ {
            Some(ContentType::Video(Video::webm))
        } else {
            None
        }
    }

    /// The media type of a file with extension `ext`, compared without regard
    /// to ASCII case; `None` for an extension outside the table.
    pub fn from_extension(ext: &str) -> (r: Option<ContentType>)
        ensures
            r == ContentType::spec_from_extension(ext@),
    {
        let l = ascii_lowercase(&chars_of(ext));
        if eq_lit(&l, "css") {
            Some(ContentType::Text(Text::css))
        } else if eq_lit(&l, "csv") {
            Some(ContentType::Text(Text::csv))
        } else if eq_lit(&l, "html") {
            Some(ContentType::Text(Text::html))
        } else if eq_lit(&l, "js") || eq_lit(&l, "cjs") || eq_lit(&l, "mjs") {
            Some(ContentType::Text(Text::javascript))
        } else if eq_lit(&l, "txt") {
            Some(ContentType::Text(Text::plain))
        } else if eq_lit(&l, "xml") {
            Some(ContentType::Text(Text::xml))
        } else if eq_lit(&l, "gif") {
            Some(ContentType::Image(Image::gif))
        } else if eq_lit(&l, "jpg") || eq_lit(&l, "jpeg") || eq_lit(&l, "jpe") || eq_lit(&l, "jif") || eq_lit(&l, "jfif") || eq_lit(&l, "jfi") {
            Some(ContentType::Image(Image::jpeg))
        } else if eq_lit(&l, "png") {
            Some(ContentType::Image(Image::png))
        } else if eq_lit(&l, "tiff") || eq_lit(&l, "tif") {
            Some(ContentType::Image(Image::tiff))
        } else if eq_lit(&l, "cur") {
            Some(ContentType::Image(Image::vnd_microsoft_icon))
        } else if eq_lit(&l, "ico") {
            Some(ContentType::Image(Image::x_icon))
        } else if eq_lit(&l, "djvu") || eq_lit(&l, "djv") {
            Some(ContentType::Image(Image::vnd_djvu))
        } else if eq_lit(&l, "svg") || eq_lit(&l, "svgz") {
            Some(ContentType::Image(Image::svg_xml))
        } else if eq_lit(&l, "ogg") || eq_lit(&l, "ogv") || eq_lit(&l, "oga") || eq_lit(&l, "ogx") || eq_lit(&l, "ogm") || eq_lit(&l, "spx") || eq_lit(&l, "opus") {
            Some(ContentType::Application(Application::ogg))
        } else if eq_lit(&l, "pdf") {
            Some(ContentType::Application(Application::pdf))
        } else if eq_lit(&l, "xhtml") {
            Some(ContentType::Application(Application::xhtml_xml))
        } else if eq_lit(&l, "json") {
            Some(ContentType::Application(Application::json))
        } else if eq_lit(&l, "jsonld") {
            Some(ContentType::Application(Application::ld_json))
        } else if eq_lit(&l, "zip") || eq_lit(&l, "zipx") {
            Some(ContentType::Application(Application::zip))
        } else if eq_lit(&l, "woff") || eq_lit(&l, "woff2") {
            Some(ContentType::Application(Application::woff))
        } else if eq_lit(&l, "wma") {
            Some(ContentType::Audio(Audio::x_ms_wma))
        } else if eq_lit(&l, "ra") || eq_lit(&l, "ram") {
            Some(ContentType::Audio(Audio::vnd_rn_realaudio))
        } else if eq_lit(&l, "wav") || eq_lit(&l, "wave") {
            Some(ContentType::Audio(Audio::x_wav))
        } else if eq_lit(&l, "mp4") || eq_lit(&l, "m4a") || eq_lit(&l, "m4p") || eq_lit(&l, "m4b") || eq_lit(&l, "m4r") || eq_lit(&l, "m4v") {
            Some(ContentType::Video(Video::mp4))
        } else if eq_lit(&l, "wmv") {
            Some(ContentType::Video(Video::x_ms_wmv))
        } else if eq_lit(&l, "avi") {
            Some(ContentType::Video(Video::x_msvideo))
        } else if eq_lit(&l, "webm") {
            Some(ContentType::Video(Video::webm))
        } else {
            None
        }
    }
}

/// `s` holds neither `/` nor `;`.
pub open spec fn plain_name(s: Seq<char>) -> bool {
    forall|k: int| 0 <= k < s.len() ==> s[k] != '/' && s[k] != ';'
}

/// Reading back the written name of a subtype gives the subtype, and the
/// name holds neither `/` nor `;`.
pub proof fn lemma_application_name(v: Application)
    ensures
        Application::spec_from_name(v.spec_name()) == Some(v),
        plain_name(v.spec_name()),
{
    reveal_strlit("EDI-X12");
    reveal_strlit("EDIFACT");
    reveal_strlit("javascript");
    reveal_strlit("octet-stream");
    reveal_strlit("ogg");
    reveal_strlit("pdf");
    reveal_strlit("xhtml+xml");
    reveal_strlit("x-shockwave-flash");
    reveal_strlit("json");
    reveal_strlit("ld+json");
    reveal_strlit("xml");
    reveal_strlit("zip");
    reveal_strlit("x-www-form-urlencoded");
    reveal_strlit("woff");
    match v {
        Application::EDI_X12 => {
        },
        Application::EDIFACT => {
            assert("EDIFACT"@[3] != "EDI-X12"@[3]);
        },
        Application::javascript => {
            assert("javascript"@.len() != "EDI-X12"@.len());
            assert("javascript"@.len() != "EDIFACT"@.len());
        },
        Application::octet_stream => {
            assert("octet-stream"@.len() != "EDI-X12"@.len());
            assert("octet-stream"@.len() != "EDIFACT"@.len());
            assert("octet-stream"@.len() != "javascript"@.len());
        },
        Application::ogg => {
            assert("ogg"@.len() != "EDI-X12"@.len());
            assert("ogg"@.len() != "EDIFACT"@.len());
            assert("ogg"@.len() != "javascript"@.len());
            assert("ogg"@.len() != "octet-stream"@.len());
        },
        Application::pdf => {
            assert("pdf"@.len() != "EDI-X12"@.len());
            assert("pdf"@.len() != "EDIFACT"@.len());
            assert("pdf"@.len() != "javascript"@.len());
            assert("pdf"@.len() != "octet-stream"@.len());
            assert("pdf"@[0] != "ogg"@[0]);
        },
        Application::xhtml_xml => {
            assert("xhtml+xml"@.len() != "EDI-X12"@.len());
            assert("xhtml+xml"@.len() != "EDIFACT"@.len());
            assert("xhtml+xml"@.len() != "javascript"@.len());
            assert("xhtml+xml"@.len() != "octet-stream"@.len());
            assert("xhtml+xml"@.len() != "ogg"@.len());
            assert("xhtml+xml"@.len() != "pdf"@.len());
        },
        Application::x_shockwave_flash => {
            assert("x-shockwave-flash"@.len() != "EDI-X12"@.len());
            assert("x-shockwave-flash"@.len() != "EDIFACT"@.len());
            assert("x-shockwave-flash"@.len() != "javascript"@.len());
            assert("x-shockwave-flash"@.len() != "octet-stream"@.len());
            assert("x-shockwave-flash"@.len() != "ogg"@.len());
            assert("x-shockwave-flash"@.len() != "pdf"@.len());
            assert("x-shockwave-flash"@.len() != "xhtml+xml"@.len());
        },
        Application::json => {
            assert("json"@.len() != "EDI-X12"@.len());
            assert("json"@.len() != "EDIFACT"@.len());
            assert("json"@.len() != "javascript"@.len());
            assert("json"@.len() != "octet-stream"@.len());
            assert("json"@.len() != "ogg"@.len());
            assert("json"@.len() != "pdf"@.len());
            assert("json"@.len() != "xhtml+xml"@.len());
            assert("json"@.len() != "x-shockwave-flash"@.len());
        },
        Application::ld_json => {
            assert("ld+json"@[0] != "EDI-X12"@[0]);
            assert("ld+json"@[0] != "EDIFACT"@[0]);
            assert("ld+json"@.len() != "javascript"@.len());
            assert("ld+json"@.len() != "octet-stream"@.len());
            assert("ld+json"@.len() != "ogg"@.len());
            assert("ld+json"@.len() != "pdf"@.len());
            assert("ld+json"@.len() != "xhtml+xml"@.len());
            assert("ld+json"@.len() != "x-shockwave-flash"@.len());
            assert("ld+json"@.len() != "json"@.len());
        },
        Application::xml => {
            assert("xml"@.len() != "EDI-X12"@.len());
            assert("xml"@.len() != "EDIFACT"@.len());
            assert("xml"@.len() != "javascript"@.len());
            assert("xml"@.len() != "octet-stream"@.len());
            assert("xml"@[0] != "ogg"@[0]);
            assert("xml"@[0] != "pdf"@[0]);
            assert("xml"@.len() != "xhtml+xml"@.len());
            assert("xml"@.len() != "x-shockwave-flash"@.len());
            assert("xml"@.len() != "json"@.len());
            assert("xml"@.len() != "ld+json"@.len());
        },
        Application::zip => {
            assert("zip"@.len() != "EDI-X12"@.len());
            assert("zip"@.len() != "EDIFACT"@.len());
            assert("zip"@.len() != "javascript"@.len());
            assert("zip"@.len() != "octet-stream"@.len());
            assert("zip"@[0] != "ogg"@[0]);
            assert("zip"@[0] != "pdf"@[0]);
            assert("zip"@.len() != "xhtml+xml"@.len());
            assert("zip"@.len() != "x-shockwave-flash"@.len());
            assert("zip"@.len() != "json"@.len());
            assert("zip"@.len() != "ld+json"@.len());
            assert("zip"@[0] != "xml"@[0]);
        },
        Application::x_www_form_urlencoded => {
            assert("x-www-form-urlencoded"@.len() != "EDI-X12"@.len());
            assert("x-www-form-urlencoded"@.len() != "EDIFACT"@.len());
            assert("x-www-form-urlencoded"@.len() != "javascript"@.len());
            assert("x-www-form-urlencoded"@.len() != "octet-stream"@.len());
            assert("x-www-form-urlencoded"@.len() != "ogg"@.len());
            assert("x-www-form-urlencoded"@.len() != "pdf"@.len());
            assert("x-www-form-urlencoded"@.len() != "xhtml+xml"@.len());
            assert("x-www-form-urlencoded"@.len() != "x-shockwave-flash"@.len());
            assert("x-www-form-urlencoded"@.len() != "json"@.len());
            assert("x-www-form-urlencoded"@.len() != "ld+json"@.len());
            assert("x-www-form-urlencoded"@.len() != "xml"@.len());
            assert("x-www-form-urlencoded"@.len() != "zip"@.len());
        },
        Application::woff => {
            assert("woff"@.len() != "EDI-X12"@.len());
            assert("woff"@.len() != "EDIFACT"@.len());
            assert("woff"@.len() != "javascript"@.len());
            assert("woff"@.len() != "octet-stream"@.len());
            assert("woff"@.len() != "ogg"@.len());
            assert("woff"@.len() != "pdf"@.len());
            assert("woff"@.len() != "xhtml+xml"@.len());
            assert("woff"@.len() != "x-shockwave-flash"@.len());
            assert("woff"@[0] != "json"@[0]);
            assert("woff"@.len() != "ld+json"@.len());
            assert("woff"@.len() != "xml"@.len());
            assert("woff"@.len() != "zip"@.len());
            assert("woff"@.len() != "x-www-form-urlencoded"@.len());
        },
    }
}

/// Reading back the written name of a subtype gives the subtype, and the
/// name holds neither `/` nor `;`.
pub proof fn lemma_audio_name(v: Audio)
    ensures
        Audio::spec_from_name(v.spec_name()) == Some(v),
        plain_name(v.spec_name()),
{
    reveal_strlit("mpeg");
    reveal_strlit("x-ms-wma");
    reveal_strlit("vnd.rn-realaudio");
    reveal_strlit("x-wav");
    match v {
        Audio::mpeg => {
        },
        Audio::x_ms_wma => {
            assert("x-ms-wma"@.len() != "mpeg"@.len());
        },
        Audio::vnd_rn_realaudio => {
            assert("vnd.rn-realaudio"@.len() != "mpeg"@.len());
            assert("vnd.rn-realaudio"@.len() != "x-ms-wma"@.len());
        },
        Audio::x_wav => {
            assert("x-wav"@.len() != "mpeg"@.len());
            assert("x-wav"@.len() != "x-ms-wma"@.len());
            assert("x-wav"@.len() != "vnd.rn-realaudio"@.len());
        },
    }
}

/// Reading back the written name of a subtype gives the subtype, and the
/// name holds neither `/` nor `;`.
pub proof fn lemma_image_name(v: Image)
    ensures
        Image::spec_from_name(v.spec_name()) == Some(v),
        plain_name(v.spec_name()),
{
    reveal_strlit("gif");
    reveal_strlit("jpeg");
    reveal_strlit("png");
    reveal_strlit("tiff");
    reveal_strlit("vnd.microsoft.icon");
    reveal_strlit("x-icon");
    reveal_strlit("vnd.djvu");
    reveal_strlit("svg+xml");
    match v {
        Image::gif => {
        },
        Image::jpeg => {
            assert("jpeg"@.len() != "gif"@.len());
        },
        Image::png => {
            assert("png"@[0] != "gif"@[0]);
            assert("png"@.len() != "jpeg"@.len());
        },
        Image::tiff => {
            assert("tiff"@.len() != "gif"@.len());
            assert("tiff"@[0] != "jpeg"@[0]);
            assert("tiff"@.len() != "png"@.len());
        },
        Image::vnd_microsoft_icon => {
            assert("vnd.microsoft.icon"@.len() != "gif"@.len());
            assert("vnd.microsoft.icon"@.len() != "jpeg"@.len());
            assert("vnd.microsoft.icon"@.len() != "png"@.len());
            assert("vnd.microsoft.icon"@.len() != "tiff"@.len());
        },
        Image::x_icon => {
            assert("x-icon"@.len() != "gif"@.len());
            assert("x-icon"@.len() != "jpeg"@.len());
            assert("x-icon"@.len() != "png"@.len());
            assert("x-icon"@.len() != "tiff"@.len());
            assert("x-icon"@.len() != "vnd.microsoft.icon"@.len());
        },
        Image::vnd_djvu => {
            assert("vnd.djvu"@.len() != "gif"@.len());
            assert("vnd.djvu"@.len() != "jpeg"@.len());
            assert("vnd.djvu"@.len() != "png"@.len());
            assert("vnd.djvu"@.len() != "tiff"@.len());
            assert("vnd.djvu"@.len() != "vnd.microsoft.icon"@.len());
            assert("vnd.djvu"@.len() != "x-icon"@.len());
        },
        Image::svg_xml => {
            assert("svg+xml"@.len() != "gif"@.len());
            assert("svg+xml"@.len() != "jpeg"@.len());
            assert("svg+xml"@.len() != "png"@.len());
            assert("svg+xml"@.len() != "tiff"@.len());
            assert("svg+xml"@.len() != "vnd.microsoft.icon"@.len());
            assert("svg+xml"@.len() != "x-icon"@.len());
            assert("svg+xml"@.len() != "vnd.djvu"@.len());
        },
    }
}

/// Reading back the written name of a subtype gives the subtype, and the
/// name holds neither `/` nor `;`.
pub proof fn lemma_multipart_name(v: Multipart)
    ensures
        Multipart::spec_from_name(v.spec_name()) == Some(v),
        plain_name(v.spec_name()),
{
    reveal_strlit("mixed");
    reveal_strlit("alternative");
    reveal_strlit("related");
    match v {
        Multipart::mixed => {
        },
        Multipart::alternative => {
            assert("alternative"@.len() != "mixed"@.len());
        },
        Multipart::related => {
            assert("related"@.len() != "mixed"@.len());
            assert("related"@.len() != "alternative"@.len());
        },
    }
}

/// Reading back the written name of a subtype gives the subtype, and the
/// name holds neither `/` nor `;`.
pub proof fn lemma_text_name(v: Text)
    ensures
        Text::spec_from_name(v.spec_name()) == Some(v),
        plain_name(v.spec_name()),
{
    reveal_strlit("css");
    reveal_strlit("csv");
    reveal_strlit("html");
    reveal_strlit("javascript");
    reveal_strlit("plain");
    reveal_strlit("xml");
    match v {
        Text::css => {
        },
        Text::csv => {
            assert("csv"@[2] != "css"@[2]);
        },
        Text::html => {
            assert("html"@.len() != "css"@.len());
            assert("html"@.len() != "csv"@.len());
        },
        Text::javascript => {
            assert("javascript"@.len() != "css"@.len());
            assert("javascript"@.len() != "csv"@.len());
            assert("javascript"@.len() != "html"@.len());
        },
        Text::plain => {
            assert("plain"@.len() != "css"@.len());
            assert("plain"@.len() != "csv"@.len());
            assert("plain"@.len() != "html"@.len());
            assert("plain"@.len() != "javascript"@.len());
        },
        Text::xml => {
            assert("xml"@[0] != "css"@[0]);
            assert("xml"@[0] != "csv"@[0]);
            assert("xml"@.len() != "html"@.len());
            assert("xml"@.len() != "javascript"@.len());
            assert("xml"@.len() != "plain"@.len());
        },
    }
}

/// Reading back the written name of a subtype gives the subtype, and the
/// name holds neither `/` nor `;`.
pub proof fn lemma_video_name(v: Video)
    ensures
        Video::spec_from_name(v.spec_name()) == Some(v),
        plain_name(v.spec_name()),
{
    reveal_strlit("mpeg");
    reveal_strlit("mp4");
    reveal_strlit("quicktime");
    reveal_strlit("x-ms-wmv");
    reveal_strlit("x-msvideo");
    reveal_strlit("x-flv");
    reveal_strlit("webm");
    match v {
        Video::mpeg => {
        },
        Video::mp4 => {
            assert("mp4"@.len() != "mpeg"@.len());
        },
        Video::quicktime => {
            assert("quicktime"@.len() != "mpeg"@.len());
            assert("quicktime"@.len() != "mp4"@.len());
        },
        Video::x_ms_wmv => {
            assert("x-ms-wmv"@.len() != "mpeg"@.len());
            assert("x-ms-wmv"@.len() != "mp4"@.len());
            assert("x-ms-wmv"@.len() != "quicktime"@.len());
        },
        Video::x_msvideo => {
            assert("x-msvideo"@.len() != "mpeg"@.len());
            assert("x-msvideo"@.len() != "mp4"@.len());
            assert("x-msvideo"@[0] != "quicktime"@[0]);
            assert("x-msvideo"@.len() != "x-ms-wmv"@.len());
        },
        Video::x_flv => {
            assert("x-flv"@.len() != "mpeg"@.len());
            assert("x-flv"@.len() != "mp4"@.len());
            assert("x-flv"@.len() != "quicktime"@.len());
            assert("x-flv"@.len() != "x-ms-wmv"@.len());
            assert("x-flv"@.len() != "x-msvideo"@.len());
        },
        Video::webm => {
            assert("webm"@[0] != "mpeg"@[0]);
            assert("webm"@.len() != "mp4"@.len());
            assert("webm"@.len() != "quicktime"@.len());
            assert("webm"@.len() != "x-ms-wmv"@.len());
            assert("webm"@.len() != "x-msvideo"@.len());
            assert("webm"@.len() != "x-flv"@.len());
        },
    }
}

/// Reading back the written form `top/sub` of a media type gives the media
/// type.
pub proof fn lemma_content_type_round_trip(ct: ContentType)
    ensures
        ContentType::spec_new(ct.spec_to_string()) == Ok::<ContentType, ParserError>(ct),
{
    reveal_strlit("/");
    reveal_strlit("application");
    reveal_strlit("audio");
    reveal_strlit("image");
    reveal_strlit("multipart");
    reveal_strlit("text");
    reveal_strlit("video");
    let top = ct.spec_top();
    let sub = ct.spec_sub();
    let s = ct.spec_to_string();
    match ct {
        ContentType::Application(v) => {
            lemma_application_name(v);
        },
        ContentType::Audio(v) => {
            lemma_audio_name(v);
            assert("audio"@.len() != "application"@.len());
        },
        ContentType::Image(v) => {
            lemma_image_name(v);
            assert("image"@.len() != "application"@.len());
            assert("image"@[0] != "audio"@[0]);
        },
        ContentType::Multipart(v) => {
            lemma_multipart_name(v);
            assert("multipart"@.len() != "application"@.len());
            assert("multipart"@.len() != "audio"@.len());
            assert("multipart"@.len() != "image"@.len());
        },
        ContentType::Text(v) => {
            lemma_text_name(v);
            assert("text"@.len() != "application"@.len());
            assert("text"@.len() != "audio"@.len());
            assert("text"@.len() != "image"@.len());
            assert("text"@.len() != "multipart"@.len());
        },
        ContentType::Video(v) => {
            lemma_video_name(v);
            assert("video"@.len() != "application"@.len());
            assert("video"@[0] != "audio"@[0]);
            assert("video"@[0] != "image"@[0]);
            assert("video"@.len() != "multipart"@.len());
            assert("video"@.len() != "text"@.len());
        },
    }
    assert(forall|k: int| 0 <= k < top.len() ==> top[k] != '/');
    assert(s[top.len() as int] == '/');
    lemma_find_from_at(s, '/', 0, top.len() as int);
    assert(before(s, '/') =~= top);
    assert(after(s, '/') =~= sub);
    lemma_find_from_at(sub, '/', 0, sub.len() as int);
    assert(before(sub, '/') =~= sub);
    lemma_find_from_at(sub, ';', 0, sub.len() as int);
    assert(before(sub, ';') =~= sub);
}

} // verus!
