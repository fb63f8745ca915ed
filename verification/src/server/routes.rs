//! The routes that a server must offer.

use vstd::prelude::*;

verus! {

#[derive(Debug, Clone)]
pub enum RequestMethod {
    Post,
    Get,
    Put,
    Delete,
    Head,
}

#[derive(Debug, Clone)]
pub enum MediaType {
    AAC,
    AVIF,
    Any,
    BMP,
    Binary,
    Bytes,
    CBR,
    CBZ,
    CSS,
    CSV,
    Calendar,
    EPUB,
    EXE,
    EventStream,
    FLAC,
    Form,
    FormData,
    GIF,
    GZIP,
    HTML,
    Icon,
    JPEG,
    JSON,
    JavaScript,
    JsonApi,
    MOV,
    MP3,
    MP4,
    MPEG,
    Markdown,
    MsgPack,
    OGG,
    OPF,
    OTF,
    PDF,
    PNG,
    Plain,
    RAR,
    SVG,
    TAR,
    TIFF,
    TTF,
    Text,
    WASM,
    WAV,
    WEBA,
    WEBM,
    WEBP,
    WOFF,
    WOFF2,
    XHTML,
    XML,
    ZIP,
}

/// One route: where it is, how it is called, and what it answers with.
#[derive(Debug, Clone)]
pub struct RequiredRoute {
    pub uri: String,
    pub method: RequestMethod,
    pub media: Option<MediaType>,
}

pub struct RequiredRoutes {
    pub routes: Vec<RequiredRoute>,
}

} // verus!
