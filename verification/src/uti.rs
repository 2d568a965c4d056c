//! The type vocabulary: a closed set of human-friendly supertype names, each
//! bound to the canonical type-system string the handler registry expects.
//! The tables are compiled-in constant data; parsing normalizes a name to
//! lower case with underscores replaced by hyphens before matching it.

use vstd::prelude::*;
use crate::error::InfatError;
use crate::strutil::{normalized, eq_normalized, str_eq, contains_char_spec};

verus! {

broadcast use vstd::string::group_string_axioms;

/// One recognized content category.
#[derive(Debug, Clone, Copy, PartialEq, Eq, Structural)]
pub enum SuperType {
    Text,
    PlainText,
    Csv,
    Json,
    Xml,
    Yaml,
    Html,
    Markdown,
    Rtf,
    Image,
    RawImage,
    Png,
    Jpeg,
    Gif,
    Tiff,
    Svg,
    WebP,
    Heic,
    Heif,
    Bmp,
    Audio,
    Mp3,
    Wav,
    Aiff,
    Midi,
    Mp4Audio,
    AppleProtectedMp4Audio,
    Flac,
    OggAudio,
    Ac3Audio,
    AacAudio,
    Video,
    Mpeg2TransportStream,
    Movie,
    QuicktimeMovie,
    Mp4Movie,
    AppleProtectedMp4Video,
    Mpeg,
    Mpeg2Video,
    Avi,
    DvMovie,
    RealMedia,
    RealAudio,
    Webm,
    Matroska,
    M3uPlaylist,
    Archive,
    Zip,
    Gzip,
    Tar,
    Bz2,
    AppleArchive,
    Sourcecode,
    CSource,
    CHeader,
    CppSource,
    CppHeader,
    ObjcSource,
    ObjcPlusPlusSource,
    SwiftSource,
    Shell,
    Makefile,
    Javascript,
    PythonScript,
    RubyScript,
    PerlScript,
    PhpScript,
    AppleScript,
    AssemblySource,
    Data,
    Directory,
    Folder,
    Symlink,
    Executable,
    UnixExecutable,
    AppBundle,
    Framework,
    DiskImage,
    Volume,
    MountPoint,
    AliasFile,
    ThreeDContent,
    Usd,
    Usdz,
    RealityFile,
    SceneKitScene,
    Font,
    Pkcs12,
    X509Certificate,
    Url,
    FileUrl,
    UrlBookmarkData,
    PropertyList,
    XmlPropertyList,
    BinaryPropertyList,
    Log,
    Bookmark,
    InternetLocation,
    InternetShortcut,
    DefaultAppWebBrowser,
    DefaultAppMailClient,
    M4vVideo,
    M4aAudio,
}

/// The canonical type-system string of each supertype.
pub open spec fn uti_spec(st: SuperType) -> Seq<char> {
    match st {
        SuperType::Text => "public.text"@,
        SuperType::PlainText => "public.plain-text"@,
        SuperType::Csv => "public.comma-separated-values-text"@,
        SuperType::Json => "public.json"@,
        SuperType::Xml => "public.xml"@,
        SuperType::Yaml => "public.yaml"@,
        SuperType::Html => "public.html"@,
        SuperType::Markdown => "net.daringfireball.markdown"@,
        SuperType::Rtf => "public.rtf"@,
        SuperType::Image => "public.image"@,
        SuperType::RawImage => "public.camera-raw-image"@,
        SuperType::Png => "public.png"@,
        SuperType::Jpeg => "public.jpeg"@,
        SuperType::Gif => "com.compuserve.gif"@,
        SuperType::Tiff => "public.tiff"@,
        SuperType::Svg => "public.svg-image"@,
        SuperType::WebP => "org.webmproject.webp"@,
        SuperType::Heic => "public.heic"@,
        SuperType::Heif => "public.heif"@,
        SuperType::Bmp => "com.microsoft.bmp"@,
        SuperType::Audio => "public.audio"@,
        SuperType::Mp3 => "public.mp3"@,
        SuperType::Wav => "com.microsoft.waveform-audio"@,
        SuperType::Aiff => "public.aiff-audio"@,
        SuperType::Midi => "public.midi-audio"@,
        SuperType::Mp4Audio => "public.mpeg-4-audio"@,
        SuperType::AppleProtectedMp4Audio => "com.apple.protected-mpeg-4-audio"@,
        SuperType::Flac => "org.xiph.flac"@,
        SuperType::OggAudio => "org.xiph.ogg-audio"@,
        SuperType::Ac3Audio => "public.ac3-audio"@,
        SuperType::AacAudio => "public.aac-audio"@,
        SuperType::Video => "public.video"@,
        SuperType::Mpeg2TransportStream => "mpeg2-transport-stream"@,
        SuperType::Movie => "public.movie"@,
        SuperType::QuicktimeMovie => "com.apple.quicktime-movie"@,
        SuperType::Mp4Movie => "public.mpeg-4"@,
        SuperType::AppleProtectedMp4Video => "com.apple.protected-mpeg-4-video"@,
        SuperType::Mpeg => "public.mpeg"@,
        SuperType::Mpeg2Video => "public.mpeg-2-video"@,
        SuperType::Avi => "public.avi"@,
        SuperType::DvMovie => "public.dv-movie"@,
        SuperType::RealMedia => "com.real.realmedia"@,
        SuperType::RealAudio => "com.real.realaudio"@,
        SuperType::Webm => "org.webmproject.webm"@,
        SuperType::Matroska => "org.matroska.mkv"@,
        SuperType::M3uPlaylist => "m3u-playlist"@,
        SuperType::Archive => "public.archive"@,
        SuperType::Zip => "public.zip-archive"@,
        SuperType::Gzip => "org.gnu.gnu-zip-archive"@,
        SuperType::Tar => "public.tar-archive"@,
        SuperType::Bz2 => "public.bzip2-archive"@,
        SuperType::AppleArchive => "com.apple.archive"@,
        SuperType::Sourcecode => "public.source-code"@,
        SuperType::CSource => "public.c-source"@,
        SuperType::CHeader => "public.c-header"@,
        SuperType::CppSource => "public.c-plus-plus-source"@,
        SuperType::CppHeader => "public.c-plus-plus-header"@,
        SuperType::ObjcSource => "public.objective-c-source"@,
        SuperType::ObjcPlusPlusSource => "public.objective-c-plus-plus-source"@,
        SuperType::SwiftSource => "public.swift-source"@,
        SuperType::Shell => "public.shell-script"@,
        SuperType::Makefile => "public.make-source"@,
        SuperType::Javascript => "com.netscape.javascript-source"@,
        SuperType::PythonScript => "public.python-script"@,
        SuperType::RubyScript => "public.ruby-script"@,
        SuperType::PerlScript => "public.perl-script"@,
        SuperType::PhpScript => "public.php-script"@,
        SuperType::AppleScript => "com.apple.applescript.text"@,
        SuperType::AssemblySource => "public.assembly-source"@,
        SuperType::Data => "public.data"@,
        SuperType::Directory => "public.directory"@,
        SuperType::Folder => "public.folder"@,
        SuperType::Symlink => "public.symlink"@,
        SuperType::Executable => "public.executable"@,
        SuperType::UnixExecutable => "public.unix-executable"@,
        SuperType::AppBundle => "com.apple.application-bundle"@,
        SuperType::Framework => "com.apple.framework"@,
        SuperType::DiskImage => "public.disk-image"@,
        SuperType::Volume => "public.volume"@,
        SuperType::MountPoint => "com.apple.mount-point"@,
        SuperType::AliasFile => "com.apple.alias-file"@,
        SuperType::ThreeDContent => "public.3d-content"@,
        SuperType::Usd => "com.pixar.universal-scene-description"@,
        SuperType::Usdz => "com.pixar.universal-scene-description-mobile"@,
        SuperType::RealityFile => "com.apple.reality"@,
        SuperType::SceneKitScene => "com.apple.scenekit.scene"@,
        SuperType::Font => "public.font"@,
        SuperType::Pkcs12 => "com.rsa.pkcs-12"@,
        SuperType::X509Certificate => "public.x509-certificate"@,
        SuperType::Url => "public.url"@,
        SuperType::FileUrl => "public.file-url"@,
        SuperType::UrlBookmarkData => "com.apple.bookmark"@,
        SuperType::PropertyList => "com.apple.property-list"@,
        SuperType::XmlPropertyList => "com.apple.xml-property-list"@,
        SuperType::BinaryPropertyList => "com.apple.binary-property-list"@,
        SuperType::Log => "public.log"@,
        SuperType::Bookmark => "public.bookmark"@,
        SuperType::InternetLocation => "com.apple.web-internet-location"@,
        SuperType::InternetShortcut => "com.microsoft.internet-shortcut"@,
        SuperType::DefaultAppWebBrowser => "com.apple.default-app.web-browser"@,
        SuperType::DefaultAppMailClient => "com.apple.default-app.mail-client"@,
        SuperType::M4vVideo => "com.apple.m4v-video"@,
        SuperType::M4aAudio => "com.apple.m4a-audio"@,
    }
}

/// The stable lowercase-hyphenated display name of each supertype.
pub open spec fn name_spec(st: SuperType) -> Seq<char> {
    match st {
        SuperType::Text => "text"@,
        SuperType::PlainText => "plain-text"@,
        SuperType::Csv => "csv"@,
        SuperType::Json => "json"@,
        SuperType::Xml => "xml"@,
        SuperType::Yaml => "yaml"@,
        SuperType::Html => "html"@,
        SuperType::Markdown => "markdown"@,
        SuperType::Rtf => "rtf"@,
        SuperType::Image => "image"@,
        SuperType::RawImage => "raw-image"@,
        SuperType::Png => "png"@,
        SuperType::Jpeg => "jpeg"@,
        SuperType::Gif => "gif"@,
        SuperType::Tiff => "tiff"@,
        SuperType::Svg => "svg"@,
        SuperType::WebP => "webp"@,
        SuperType::Heic => "heic"@,
        SuperType::Heif => "heif"@,
        SuperType::Bmp => "bmp"@,
        SuperType::Audio => "audio"@,
        SuperType::Mp3 => "mp3"@,
        SuperType::Wav => "wav"@,
        SuperType::Aiff => "aiff"@,
        SuperType::Midi => "midi"@,
        SuperType::Mp4Audio => "mp4-audio"@,
        SuperType::AppleProtectedMp4Audio => "apple-protected-mp4-audio"@,
        SuperType::Flac => "flac"@,
        SuperType::OggAudio => "ogg-audio"@,
        SuperType::Ac3Audio => "ac3-audio"@,
        SuperType::AacAudio => "aac-audio"@,
        SuperType::Video => "video"@,
        SuperType::Mpeg2TransportStream => "mpeg2-transport-stream"@,
        SuperType::Movie => "movie"@,
        SuperType::QuicktimeMovie => "quicktime-movie"@,
        SuperType::Mp4Movie => "mp4-movie"@,
        SuperType::AppleProtectedMp4Video => "apple-protected-mp4-video"@,
        SuperType::Mpeg => "mpeg"@,
        SuperType::Mpeg2Video => "mpeg2-video"@,
        SuperType::Avi => "avi"@,
        SuperType::DvMovie => "dv-movie"@,
        SuperType::RealMedia => "real-media"@,
        SuperType::RealAudio => "real-audio"@,
        SuperType::Webm => "webm"@,
        SuperType::Matroska => "matroska"@,
        SuperType::M3uPlaylist => "m3u-playlist"@,
        SuperType::Archive => "archive"@,
        SuperType::Zip => "zip"@,
        SuperType::Gzip => "gzip"@,
        SuperType::Tar => "tar"@,
        SuperType::Bz2 => "bz2"@,
        SuperType::AppleArchive => "apple-archive"@,
        SuperType::Sourcecode => "sourcecode"@,
        SuperType::CSource => "c-source"@,
        SuperType::CHeader => "c-header"@,
        SuperType::CppSource => "cpp-source"@,
        SuperType::CppHeader => "cpp-header"@,
        SuperType::ObjcSource => "objc-source"@,
        SuperType::ObjcPlusPlusSource => "objc-plus-plus-source"@,
        SuperType::SwiftSource => "swift-source"@,
        SuperType::Shell => "shell"@,
        SuperType::Makefile => "makefile"@,
        SuperType::Javascript => "javascript"@,
        SuperType::PythonScript => "python-script"@,
        SuperType::RubyScript => "ruby-script"@,
        SuperType::PerlScript => "perl-script"@,
        SuperType::PhpScript => "php-script"@,
        SuperType::AppleScript => "apple-script"@,
        SuperType::AssemblySource => "assembly-source"@,
        SuperType::Data => "data"@,
        SuperType::Directory => "directory"@,
        SuperType::Folder => "folder"@,
        SuperType::Symlink => "symlink"@,
        SuperType::Executable => "executable"@,
        SuperType::UnixExecutable => "unix-executable"@,
        SuperType::AppBundle => "app-bundle"@,
        SuperType::Framework => "framework"@,
        SuperType::DiskImage => "disk-image"@,
        SuperType::Volume => "volume"@,
        SuperType::MountPoint => "mount-point"@,
        SuperType::AliasFile => "alias-file"@,
        SuperType::ThreeDContent => "3d-content"@,
        SuperType::Usd => "usd"@,
        SuperType::Usdz => "usdz"@,
        SuperType::RealityFile => "reality-file"@,
        SuperType::SceneKitScene => "scenekit-scene"@,
        SuperType::Font => "font"@,
        SuperType::Pkcs12 => "pkcs12"@,
        SuperType::X509Certificate => "x509-certificate"@,
        SuperType::Url => "url"@,
        SuperType::FileUrl => "file-url"@,
        SuperType::UrlBookmarkData => "url-bookmark-data"@,
        SuperType::PropertyList => "property-list"@,
        SuperType::XmlPropertyList => "xml-property-list"@,
        SuperType::BinaryPropertyList => "binary-property-list"@,
        SuperType::Log => "log"@,
        SuperType::Bookmark => "bookmark"@,
        SuperType::InternetLocation => "internet-location"@,
        SuperType::InternetShortcut => "internet-shortcut"@,
        SuperType::DefaultAppWebBrowser => "default-app-web-browser"@,
        SuperType::DefaultAppMailClient => "default-app-mail-client"@,
        SuperType::M4vVideo => "m4v-video"@,
        SuperType::M4aAudio => "m4a-audio"@,
    }
}

/// The parse result for an already-normalized name: every supertype's
/// display name, then the accepted aliases, consulted in a fixed order.
pub open spec fn parse_spec(n: Seq<char>) -> Option<SuperType> {
    if n == "text"@ {
        Some(SuperType::Text)
    } else if n == "plain-text"@ {
        Some(SuperType::PlainText)
    } else if n == "csv"@ {
        Some(SuperType::Csv)
    } else if n == "json"@ {
        Some(SuperType::Json)
    } else if n == "xml"@ {
        Some(SuperType::Xml)
    } else if n == "yaml"@ {
        Some(SuperType::Yaml)
    } else if n == "html"@ {
        Some(SuperType::Html)
    } else if n == "markdown"@ {
        Some(SuperType::Markdown)
    } else if n == "rtf"@ {
        Some(SuperType::Rtf)
    } else if n == "image"@ {
        Some(SuperType::Image)
    } else if n == "raw-image"@ {
        Some(SuperType::RawImage)
    } else if n == "png"@ {
        Some(SuperType::Png)
    } else if n == "jpeg"@ {
        Some(SuperType::Jpeg)
    } else if n == "gif"@ {
        Some(SuperType::Gif)
    } else if n == "tiff"@ {
        Some(SuperType::Tiff)
    } else if n == "svg"@ {
        Some(SuperType::Svg)
    } else if n == "webp"@ {
        Some(SuperType::WebP)
    } else if n == "heic"@ {
        Some(SuperType::Heic)
    } else if n == "heif"@ {
        Some(SuperType::Heif)
    } else if n == "bmp"@ {
        Some(SuperType::Bmp)
    } else if n == "audio"@ {
        Some(SuperType::Audio)
    } else if n == "mp3"@ {
        Some(SuperType::Mp3)
    } else if n == "wav"@ {
        Some(SuperType::Wav)
    } else if n == "aiff"@ {
        Some(SuperType::Aiff)
    } else if n == "midi"@ {
        Some(SuperType::Midi)
    } else if n == "mp4-audio"@ {
        Some(SuperType::Mp4Audio)
    } else if n == "apple-protected-mp4-audio"@ {
        Some(SuperType::AppleProtectedMp4Audio)
    } else if n == "flac"@ {
        Some(SuperType::Flac)
    } else if n == "ogg-audio"@ {
        Some(SuperType::OggAudio)
    } else if n == "ac3-audio"@ {
        Some(SuperType::Ac3Audio)
    } else if n == "aac-audio"@ {
        Some(SuperType::AacAudio)
    } else if n == "video"@ {
        Some(SuperType::Video)
    } else if n == "mpeg2-transport-stream"@ {
        Some(SuperType::Mpeg2TransportStream)
    } else if n == "movie"@ {
        Some(SuperType::Movie)
    } else if n == "quicktime-movie"@ {
        Some(SuperType::QuicktimeMovie)
    } else if n == "mp4-movie"@ {
        Some(SuperType::Mp4Movie)
    } else if n == "apple-protected-mp4-video"@ {
        Some(SuperType::AppleProtectedMp4Video)
    } else if n == "mpeg"@ {
        Some(SuperType::Mpeg)
    } else if n == "mpeg2-video"@ {
        Some(SuperType::Mpeg2Video)
    } else if n == "avi"@ {
        Some(SuperType::Avi)
    } else if n == "dv-movie"@ {
        Some(SuperType::DvMovie)
    } else if n == "real-media"@ {
        Some(SuperType::RealMedia)
    } else if n == "real-audio"@ {
        Some(SuperType::RealAudio)
    } else if n == "webm"@ {
        Some(SuperType::Webm)
    } else if n == "matroska"@ {
        Some(SuperType::Matroska)
    } else if n == "m3u-playlist"@ {
        Some(SuperType::M3uPlaylist)
    } else if n == "archive"@ {
        Some(SuperType::Archive)
    } else if n == "zip"@ {
        Some(SuperType::Zip)
    } else if n == "gzip"@ {
        Some(SuperType::Gzip)
    } else if n == "tar"@ {
        Some(SuperType::Tar)
    } else if n == "bz2"@ {
        Some(SuperType::Bz2)
    } else if n == "apple-archive"@ {
        Some(SuperType::AppleArchive)
    } else if n == "sourcecode"@ {
        Some(SuperType::Sourcecode)
    } else if n == "c-source"@ {
        Some(SuperType::CSource)
    } else if n == "c-header"@ {
        Some(SuperType::CHeader)
    } else if n == "cpp-source"@ {
        Some(SuperType::CppSource)
    } else if n == "cpp-header"@ {
        Some(SuperType::CppHeader)
    } else if n == "objc-source"@ {
        Some(SuperType::ObjcSource)
    } else if n == "objc-plus-plus-source"@ {
        Some(SuperType::ObjcPlusPlusSource)
    } else if n == "swift-source"@ {
        Some(SuperType::SwiftSource)
    } else if n == "shell"@ {
        Some(SuperType::Shell)
    } else if n == "makefile"@ {
        Some(SuperType::Makefile)
    } else if n == "javascript"@ {
        Some(SuperType::Javascript)
    } else if n == "python-script"@ {
        Some(SuperType::PythonScript)
    } else if n == "ruby-script"@ {
        Some(SuperType::RubyScript)
    } else if n == "perl-script"@ {
        Some(SuperType::PerlScript)
    } else if n == "php-script"@ {
        Some(SuperType::PhpScript)
    } else if n == "apple-script"@ {
        Some(SuperType::AppleScript)
    } else if n == "assembly-source"@ {
        Some(SuperType::AssemblySource)
    } else if n == "data"@ {
        Some(SuperType::Data)
    } else if n == "directory"@ {
        Some(SuperType::Directory)
    } else if n == "folder"@ {
        Some(SuperType::Folder)
    } else if n == "symlink"@ {
        Some(SuperType::Symlink)
    } else if n == "executable"@ {
        Some(SuperType::Executable)
    } else if n == "unix-executable"@ {
        Some(SuperType::UnixExecutable)
    } else if n == "app-bundle"@ {
        Some(SuperType::AppBundle)
    } else if n == "framework"@ {
        Some(SuperType::Framework)
    } else if n == "disk-image"@ {
        Some(SuperType::DiskImage)
    } else if n == "volume"@ {
        Some(SuperType::Volume)
    } else if n == "mount-point"@ {
        Some(SuperType::MountPoint)
    } else if n == "alias-file"@ {
        Some(SuperType::AliasFile)
    } else if n == "3d-content"@ {
        Some(SuperType::ThreeDContent)
    } else if n == "usd"@ {
        Some(SuperType::Usd)
    } else if n == "usdz"@ {
        Some(SuperType::Usdz)
    } else if n == "reality-file"@ {
        Some(SuperType::RealityFile)
    } else if n == "scenekit-scene"@ {
        Some(SuperType::SceneKitScene)
    } else if n == "font"@ {
        Some(SuperType::Font)
    } else if n == "pkcs12"@ {
        Some(SuperType::Pkcs12)
    } else if n == "x509-certificate"@ {
        Some(SuperType::X509Certificate)
    } else if n == "url"@ {
        Some(SuperType::Url)
    } else if n == "file-url"@ {
        Some(SuperType::FileUrl)
    } else if n == "url-bookmark-data"@ {
        Some(SuperType::UrlBookmarkData)
    } else if n == "property-list"@ {
        Some(SuperType::PropertyList)
    } else if n == "xml-property-list"@ {
        Some(SuperType::XmlPropertyList)
    } else if n == "binary-property-list"@ {
        Some(SuperType::BinaryPropertyList)
    } else if n == "log"@ {
        Some(SuperType::Log)
    } else if n == "bookmark"@ {
        Some(SuperType::Bookmark)
    } else if n == "internet-location"@ {
        Some(SuperType::InternetLocation)
    } else if n == "internet-shortcut"@ {
        Some(SuperType::InternetShortcut)
    } else if n == "default-app-web-browser"@ {
        Some(SuperType::DefaultAppWebBrowser)
    } else if n == "default-app-mail-client"@ {
        Some(SuperType::DefaultAppMailClient)
    } else if n == "m4v-video"@ {
        Some(SuperType::M4vVideo)
    } else if n == "m4a-audio"@ {
        Some(SuperType::M4aAudio)
    } else if n == "comma-separated-text"@ {
        Some(SuperType::Csv)
    } else if n == "mpeg4-movie"@ {
        Some(SuperType::Mp4Movie)
    } else if n == "m3u"@ {
        Some(SuperType::M3uPlaylist)
    } else {
        None
    }
}

/// Lookup of a supertype by its canonical string, first match in
/// declaration order.
pub open spec fn from_uti_spec(u: Seq<char>) -> Option<SuperType> {
    if u == "public.text"@ {
        Some(SuperType::Text)
    } else if u == "public.plain-text"@ {
        Some(SuperType::PlainText)
    } else if u == "public.comma-separated-values-text"@ {
        Some(SuperType::Csv)
    } else if u == "public.json"@ {
        Some(SuperType::Json)
    } else if u == "public.xml"@ {
        Some(SuperType::Xml)
    } else if u == "public.yaml"@ {
        Some(SuperType::Yaml)
    } else if u == "public.html"@ {
        Some(SuperType::Html)
    } else if u == "net.daringfireball.markdown"@ {
        Some(SuperType::Markdown)
    } else if u == "public.rtf"@ {
        Some(SuperType::Rtf)
    } else if u == "public.image"@ {
        Some(SuperType::Image)
    } else if u == "public.camera-raw-image"@ {
        Some(SuperType::RawImage)
    } else if u == "public.png"@ {
        Some(SuperType::Png)
    } else if u == "public.jpeg"@ {
        Some(SuperType::Jpeg)
    } else if u == "com.compuserve.gif"@ {
        Some(SuperType::Gif)
    } else if u == "public.tiff"@ {
        Some(SuperType::Tiff)
    } else if u == "public.svg-image"@ {
        Some(SuperType::Svg)
    } else if u == "org.webmproject.webp"@ {
        Some(SuperType::WebP)
    } else if u == "public.heic"@ {
        Some(SuperType::Heic)
    } else if u == "public.heif"@ {
        Some(SuperType::Heif)
    } else if u == "com.microsoft.bmp"@ {
        Some(SuperType::Bmp)
    } else if u == "public.audio"@ {
        Some(SuperType::Audio)
    } else if u == "public.mp3"@ {
        Some(SuperType::Mp3)
    } else if u == "com.microsoft.waveform-audio"@ {
        Some(SuperType::Wav)
    } else if u == "public.aiff-audio"@ {
        Some(SuperType::Aiff)
    } else if u == "public.midi-audio"@ {
        Some(SuperType::Midi)
    } else if u == "public.mpeg-4-audio"@ {
        Some(SuperType::Mp4Audio)
    } else if u == "com.apple.protected-mpeg-4-audio"@ {
        Some(SuperType::AppleProtectedMp4Audio)
    } else if u == "org.xiph.flac"@ {
        Some(SuperType::Flac)
    } else if u == "org.xiph.ogg-audio"@ {
        Some(SuperType::OggAudio)
    } else if u == "public.ac3-audio"@ {
        Some(SuperType::Ac3Audio)
    } else if u == "public.aac-audio"@ {
        Some(SuperType::AacAudio)
    } else if u == "public.video"@ {
        Some(SuperType::Video)
    } else if u == "mpeg2-transport-stream"@ {
        Some(SuperType::Mpeg2TransportStream)
    } else if u == "public.movie"@ {
        Some(SuperType::Movie)
    } else if u == "com.apple.quicktime-movie"@ {
        Some(SuperType::QuicktimeMovie)
    } else if u == "public.mpeg-4"@ {
        Some(SuperType::Mp4Movie)
    } else if u == "com.apple.protected-mpeg-4-video"@ {
        Some(SuperType::AppleProtectedMp4Video)
    } else if u == "public.mpeg"@ {
        Some(SuperType::Mpeg)
    } else if u == "public.mpeg-2-video"@ {
        Some(SuperType::Mpeg2Video)
    } else if u == "public.avi"@ {
        Some(SuperType::Avi)
    } else if u == "public.dv-movie"@ {
        Some(SuperType::DvMovie)
    } else if u == "com.real.realmedia"@ {
        Some(SuperType::RealMedia)
    } else if u == "com.real.realaudio"@ {
        Some(SuperType::RealAudio)
    } else if u == "org.webmproject.webm"@ {
        Some(SuperType::Webm)
    } else if u == "org.matroska.mkv"@ {
        Some(SuperType::Matroska)
    } else if u == "m3u-playlist"@ {
        Some(SuperType::M3uPlaylist)
    } else if u == "public.archive"@ {
        Some(SuperType::Archive)
    } else if u == "public.zip-archive"@ {
        Some(SuperType::Zip)
    } else if u == "org.gnu.gnu-zip-archive"@ {
        Some(SuperType::Gzip)
    } else if u == "public.tar-archive"@ {
        Some(SuperType::Tar)
    } else if u == "public.bzip2-archive"@ {
        Some(SuperType::Bz2)
    } else if u == "com.apple.archive"@ {
        Some(SuperType::AppleArchive)
    } else if u == "public.source-code"@ {
        Some(SuperType::Sourcecode)
    } else if u == "public.c-source"@ {
        Some(SuperType::CSource)
    } else if u == "public.c-header"@ {
        Some(SuperType::CHeader)
    } else if u == "public.c-plus-plus-source"@ {
        Some(SuperType::CppSource)
    } else if u == "public.c-plus-plus-header"@ {
        Some(SuperType::CppHeader)
    } else if u == "public.objective-c-source"@ {
        Some(SuperType::ObjcSource)
    } else if u == "public.objective-c-plus-plus-source"@ {
        Some(SuperType::ObjcPlusPlusSource)
    } else if u == "public.swift-source"@ {
        Some(SuperType::SwiftSource)
    } else if u == "public.shell-script"@ {
        Some(SuperType::Shell)
    } else if u == "public.make-source"@ {
        Some(SuperType::Makefile)
    } else if u == "com.netscape.javascript-source"@ {
        Some(SuperType::Javascript)
    } else if u == "public.python-script"@ {
        Some(SuperType::PythonScript)
    } else if u == "public.ruby-script"@ {
        Some(SuperType::RubyScript)
    } else if u == "public.perl-script"@ {
        Some(SuperType::PerlScript)
    } else if u == "public.php-script"@ {
        Some(SuperType::PhpScript)
    } else if u == "com.apple.applescript.text"@ {
        Some(SuperType::AppleScript)
    } else if u == "public.assembly-source"@ {
        Some(SuperType::AssemblySource)
    } else if u == "public.data"@ {
        Some(SuperType::Data)
    } else if u == "public.directory"@ {
        Some(SuperType::Directory)
    } else if u == "public.folder"@ {
        Some(SuperType::Folder)
    } else if u == "public.symlink"@ {
        Some(SuperType::Symlink)
    } else if u == "public.executable"@ {
        Some(SuperType::Executable)
    } else if u == "public.unix-executable"@ {
        Some(SuperType::UnixExecutable)
    } else if u == "com.apple.application-bundle"@ {
        Some(SuperType::AppBundle)
    } else if u == "com.apple.framework"@ {
        Some(SuperType::Framework)
    } else if u == "public.disk-image"@ {
        Some(SuperType::DiskImage)
    } else if u == "public.volume"@ {
        Some(SuperType::Volume)
    } else if u == "com.apple.mount-point"@ {
        Some(SuperType::MountPoint)
    } else if u == "com.apple.alias-file"@ {
        Some(SuperType::AliasFile)
    } else if u == "public.3d-content"@ {
        Some(SuperType::ThreeDContent)
    } else if u == "com.pixar.universal-scene-description"@ {
        Some(SuperType::Usd)
    } else if u == "com.pixar.universal-scene-description-mobile"@ {
        Some(SuperType::Usdz)
    } else if u == "com.apple.reality"@ {
        Some(SuperType::RealityFile)
    } else if u == "com.apple.scenekit.scene"@ {
        Some(SuperType::SceneKitScene)
    } else if u == "public.font"@ {
        Some(SuperType::Font)
    } else if u == "com.rsa.pkcs-12"@ {
        Some(SuperType::Pkcs12)
    } else if u == "public.x509-certificate"@ {
        Some(SuperType::X509Certificate)
    } else if u == "public.url"@ {
        Some(SuperType::Url)
    } else if u == "public.file-url"@ {
        Some(SuperType::FileUrl)
    } else if u == "com.apple.bookmark"@ {
        Some(SuperType::UrlBookmarkData)
    } else if u == "com.apple.property-list"@ {
        Some(SuperType::PropertyList)
    } else if u == "com.apple.xml-property-list"@ {
        Some(SuperType::XmlPropertyList)
    } else if u == "com.apple.binary-property-list"@ {
        Some(SuperType::BinaryPropertyList)
    } else if u == "public.log"@ {
        Some(SuperType::Log)
    } else if u == "public.bookmark"@ {
        Some(SuperType::Bookmark)
    } else if u == "com.apple.web-internet-location"@ {
        Some(SuperType::InternetLocation)
    } else if u == "com.microsoft.internet-shortcut"@ {
        Some(SuperType::InternetShortcut)
    } else if u == "com.apple.default-app.web-browser"@ {
        Some(SuperType::DefaultAppWebBrowser)
    } else if u == "com.apple.default-app.mail-client"@ {
        Some(SuperType::DefaultAppMailClient)
    } else if u == "com.apple.m4v-video"@ {
        Some(SuperType::M4vVideo)
    } else if u == "com.apple.m4a-audio"@ {
        Some(SuperType::M4aAudio)
    } else {
        None
    }
}

/// Every supertype, in the order the vocabulary enumerates them.
pub open spec fn all_spec() -> Seq<SuperType> {
    seq![SuperType::Text, SuperType::PlainText, SuperType::Csv, SuperType::Json, SuperType::Xml, SuperType::Yaml, SuperType::M3uPlaylist, SuperType::Html, SuperType::Markdown, SuperType::Rtf, SuperType::Image, SuperType::RawImage, SuperType::Png,]
        + seq![SuperType::Jpeg, SuperType::Gif, SuperType::Tiff, SuperType::Svg, SuperType::WebP, SuperType::Heic, SuperType::Heif, SuperType::Bmp, SuperType::Audio, SuperType::Mp3, SuperType::Wav, SuperType::Aiff, SuperType::Midi,]
        + seq![SuperType::Mp4Audio, SuperType::AppleProtectedMp4Audio, SuperType::Flac, SuperType::OggAudio, SuperType::Ac3Audio, SuperType::AacAudio, SuperType::Video, SuperType::Movie, SuperType::QuicktimeMovie, SuperType::Mp4Movie, SuperType::AppleProtectedMp4Video, SuperType::Mpeg, SuperType::Mpeg2Video,]
        + seq![SuperType::Avi, SuperType::DvMovie, SuperType::RealMedia, SuperType::RealAudio, SuperType::Webm, SuperType::Matroska, SuperType::Archive, SuperType::Zip, SuperType::Gzip, SuperType::Tar, SuperType::Bz2, SuperType::AppleArchive, SuperType::Sourcecode,]
        + seq![SuperType::CSource, SuperType::CHeader, SuperType::CppSource, SuperType::CppHeader, SuperType::ObjcSource, SuperType::ObjcPlusPlusSource, SuperType::SwiftSource, SuperType::Shell, SuperType::Makefile, SuperType::Javascript, SuperType::PythonScript, SuperType::RubyScript, SuperType::PerlScript,]
        + seq![SuperType::PhpScript, SuperType::AppleScript, SuperType::AssemblySource, SuperType::Data, SuperType::Directory, SuperType::Folder, SuperType::Symlink, SuperType::Executable, SuperType::UnixExecutable, SuperType::AppBundle, SuperType::Framework, SuperType::DiskImage, SuperType::Volume,]
        + seq![SuperType::MountPoint, SuperType::AliasFile, SuperType::ThreeDContent, SuperType::Usd, SuperType::Usdz, SuperType::RealityFile, SuperType::SceneKitScene, SuperType::Font, SuperType::Pkcs12, SuperType::X509Certificate, SuperType::Url, SuperType::FileUrl, SuperType::UrlBookmarkData,]
        + seq![SuperType::PropertyList, SuperType::Mpeg2TransportStream, SuperType::XmlPropertyList, SuperType::BinaryPropertyList, SuperType::Log, SuperType::Bookmark, SuperType::InternetLocation, SuperType::InternetShortcut, SuperType::DefaultAppWebBrowser, SuperType::DefaultAppMailClient, SuperType::M4vVideo, SuperType::M4aAudio,]
}

fn push_supertypes_0(v: &mut Vec<SuperType>)
    ensures
        final(v)@ == old(v)@ + seq![SuperType::Text, SuperType::PlainText, SuperType::Csv, SuperType::Json, SuperType::Xml, SuperType::Yaml, SuperType::M3uPlaylist, SuperType::Html, SuperType::Markdown, SuperType::Rtf, SuperType::Image, SuperType::RawImage, SuperType::Png,],
{
    v.push(SuperType::Text);
    v.push(SuperType::PlainText);
    v.push(SuperType::Csv);
    v.push(SuperType::Json);
    v.push(SuperType::Xml);
    v.push(SuperType::Yaml);
    v.push(SuperType::M3uPlaylist);
    v.push(SuperType::Html);
    v.push(SuperType::Markdown);
    v.push(SuperType::Rtf);
    v.push(SuperType::Image);
    v.push(SuperType::RawImage);
    v.push(SuperType::Png);
    proof {
        assert(v@ =~= old(v)@ + seq![SuperType::Text, SuperType::PlainText, SuperType::Csv, SuperType::Json, SuperType::Xml, SuperType::Yaml, SuperType::M3uPlaylist, SuperType::Html, SuperType::Markdown, SuperType::Rtf, SuperType::Image, SuperType::RawImage, SuperType::Png,]);
    }
}

fn push_supertypes_1(v: &mut Vec<SuperType>)
    ensures
        final(v)@ == old(v)@ + seq![SuperType::Jpeg, SuperType::Gif, SuperType::Tiff, SuperType::Svg, SuperType::WebP, SuperType::Heic, SuperType::Heif, SuperType::Bmp, SuperType::Audio, SuperType::Mp3, SuperType::Wav, SuperType::Aiff, SuperType::Midi,],
{
    v.push(SuperType::Jpeg);
    v.push(SuperType::Gif);
    v.push(SuperType::Tiff);
    v.push(SuperType::Svg);
    v.push(SuperType::WebP);
    v.push(SuperType::Heic);
    v.push(SuperType::Heif);
    v.push(SuperType::Bmp);
    v.push(SuperType::Audio);
    v.push(SuperType::Mp3);
    v.push(SuperType::Wav);
    v.push(SuperType::Aiff);
    v.push(SuperType::Midi);
    proof {
        assert(v@ =~= old(v)@ + seq![SuperType::Jpeg, SuperType::Gif, SuperType::Tiff, SuperType::Svg, SuperType::WebP, SuperType::Heic, SuperType::Heif, SuperType::Bmp, SuperType::Audio, SuperType::Mp3, SuperType::Wav, SuperType::Aiff, SuperType::Midi,]);
    }
}

fn push_supertypes_2(v: &mut Vec<SuperType>)
    ensures
        final(v)@ == old(v)@ + seq![SuperType::Mp4Audio, SuperType::AppleProtectedMp4Audio, SuperType::Flac, SuperType::OggAudio, SuperType::Ac3Audio, SuperType::AacAudio, SuperType::Video, SuperType::Movie, SuperType::QuicktimeMovie, SuperType::Mp4Movie, SuperType::AppleProtectedMp4Video, SuperType::Mpeg, SuperType::Mpeg2Video,],
{
    v.push(SuperType::Mp4Audio);
    v.push(SuperType::AppleProtectedMp4Audio);
    v.push(SuperType::Flac);
    v.push(SuperType::OggAudio);
    v.push(SuperType::Ac3Audio);
    v.push(SuperType::AacAudio);
    v.push(SuperType::Video);
    v.push(SuperType::Movie);
    v.push(SuperType::QuicktimeMovie);
    v.push(SuperType::Mp4Movie);
    v.push(SuperType::AppleProtectedMp4Video);
    v.push(SuperType::Mpeg);
    v.push(SuperType::Mpeg2Video);
    proof {
        assert(v@ =~= old(v)@ + seq![SuperType::Mp4Audio, SuperType::AppleProtectedMp4Audio, SuperType::Flac, SuperType::OggAudio, SuperType::Ac3Audio, SuperType::AacAudio, SuperType::Video, SuperType::Movie, SuperType::QuicktimeMovie, SuperType::Mp4Movie, SuperType::AppleProtectedMp4Video, SuperType::Mpeg, SuperType::Mpeg2Video,]);
    }
}

fn push_supertypes_3(v: &mut Vec<SuperType>)
    ensures
        final(v)@ == old(v)@ + seq![SuperType::Avi, SuperType::DvMovie, SuperType::RealMedia, SuperType::RealAudio, SuperType::Webm, SuperType::Matroska, SuperType::Archive, SuperType::Zip, SuperType::Gzip, SuperType::Tar, SuperType::Bz2, SuperType::AppleArchive, SuperType::Sourcecode,],
{
    v.push(SuperType::Avi);
    v.push(SuperType::DvMovie);
    v.push(SuperType::RealMedia);
    v.push(SuperType::RealAudio);
    v.push(SuperType::Webm);
    v.push(SuperType::Matroska);
    v.push(SuperType::Archive);
    v.push(SuperType::Zip);
    v.push(SuperType::Gzip);
    v.push(SuperType::Tar);
    v.push(SuperType::Bz2);
    v.push(SuperType::AppleArchive);
    v.push(SuperType::Sourcecode);
    proof {
        assert(v@ =~= old(v)@ + seq![SuperType::Avi, SuperType::DvMovie, SuperType::RealMedia, SuperType::RealAudio, SuperType::Webm, SuperType::Matroska, SuperType::Archive, SuperType::Zip, SuperType::Gzip, SuperType::Tar, SuperType::Bz2, SuperType::AppleArchive, SuperType::Sourcecode,]);
    }
}

fn push_supertypes_4(v: &mut Vec<SuperType>)
    ensures
        final(v)@ == old(v)@ + seq![SuperType::CSource, SuperType::CHeader, SuperType::CppSource, SuperType::CppHeader, SuperType::ObjcSource, SuperType::ObjcPlusPlusSource, SuperType::SwiftSource, SuperType::Shell, SuperType::Makefile, SuperType::Javascript, SuperType::PythonScript, SuperType::RubyScript, SuperType::PerlScript,],
{
    v.push(SuperType::CSource);
    v.push(SuperType::CHeader);
    v.push(SuperType::CppSource);
    v.push(SuperType::CppHeader);
    v.push(SuperType::ObjcSource);
    v.push(SuperType::ObjcPlusPlusSource);
    v.push(SuperType::SwiftSource);
    v.push(SuperType::Shell);
    v.push(SuperType::Makefile);
    v.push(SuperType::Javascript);
    v.push(SuperType::PythonScript);
    v.push(SuperType::RubyScript);
    v.push(SuperType::PerlScript);
    proof {
        assert(v@ =~= old(v)@ + seq![SuperType::CSource, SuperType::CHeader, SuperType::CppSource, SuperType::CppHeader, SuperType::ObjcSource, SuperType::ObjcPlusPlusSource, SuperType::SwiftSource, SuperType::Shell, SuperType::Makefile, SuperType::Javascript, SuperType::PythonScript, SuperType::RubyScript, SuperType::PerlScript,]);
    }
}

fn push_supertypes_5(v: &mut Vec<SuperType>)
    ensures
        final(v)@ == old(v)@ + seq![SuperType::PhpScript, SuperType::AppleScript, SuperType::AssemblySource, SuperType::Data, SuperType::Directory, SuperType::Folder, SuperType::Symlink, SuperType::Executable, SuperType::UnixExecutable, SuperType::AppBundle, SuperType::Framework, SuperType::DiskImage, SuperType::Volume,],
{
    v.push(SuperType::PhpScript);
    v.push(SuperType::AppleScript);
    v.push(SuperType::AssemblySource);
    v.push(SuperType::Data);
    v.push(SuperType::Directory);
    v.push(SuperType::Folder);
    v.push(SuperType::Symlink);
    v.push(SuperType::Executable);
    v.push(SuperType::UnixExecutable);
    v.push(SuperType::AppBundle);
    v.push(SuperType::Framework);
    v.push(SuperType::DiskImage);
    v.push(SuperType::Volume);
    proof {
        assert(v@ =~= old(v)@ + seq![SuperType::PhpScript, SuperType::AppleScript, SuperType::AssemblySource, SuperType::Data, SuperType::Directory, SuperType::Folder, SuperType::Symlink, SuperType::Executable, SuperType::UnixExecutable, SuperType::AppBundle, SuperType::Framework, SuperType::DiskImage, SuperType::Volume,]);
    }
}

fn push_supertypes_6(v: &mut Vec<SuperType>)
    ensures
        final(v)@ == old(v)@ + seq![SuperType::MountPoint, SuperType::AliasFile, SuperType::ThreeDContent, SuperType::Usd, SuperType::Usdz, SuperType::RealityFile, SuperType::SceneKitScene, SuperType::Font, SuperType::Pkcs12, SuperType::X509Certificate, SuperType::Url, SuperType::FileUrl, SuperType::UrlBookmarkData,],
{
    v.push(SuperType::MountPoint);
    v.push(SuperType::AliasFile);
    v.push(SuperType::ThreeDContent);
    v.push(SuperType::Usd);
    v.push(SuperType::Usdz);
    v.push(SuperType::RealityFile);
    v.push(SuperType::SceneKitScene);
    v.push(SuperType::Font);
    v.push(SuperType::Pkcs12);
    v.push(SuperType::X509Certificate);
    v.push(SuperType::Url);
    v.push(SuperType::FileUrl);
    v.push(SuperType::UrlBookmarkData);
    proof {
        assert(v@ =~= old(v)@ + seq![SuperType::MountPoint, SuperType::AliasFile, SuperType::ThreeDContent, SuperType::Usd, SuperType::Usdz, SuperType::RealityFile, SuperType::SceneKitScene, SuperType::Font, SuperType::Pkcs12, SuperType::X509Certificate, SuperType::Url, SuperType::FileUrl, SuperType::UrlBookmarkData,]);
    }
}

fn push_supertypes_7(v: &mut Vec<SuperType>)
    ensures
        final(v)@ == old(v)@ + seq![SuperType::PropertyList, SuperType::Mpeg2TransportStream, SuperType::XmlPropertyList, SuperType::BinaryPropertyList, SuperType::Log, SuperType::Bookmark, SuperType::InternetLocation, SuperType::InternetShortcut, SuperType::DefaultAppWebBrowser, SuperType::DefaultAppMailClient, SuperType::M4vVideo, SuperType::M4aAudio,],
{
    v.push(SuperType::PropertyList);
    v.push(SuperType::Mpeg2TransportStream);
    v.push(SuperType::XmlPropertyList);
    v.push(SuperType::BinaryPropertyList);
    v.push(SuperType::Log);
    v.push(SuperType::Bookmark);
    v.push(SuperType::InternetLocation);
    v.push(SuperType::InternetShortcut);
    v.push(SuperType::DefaultAppWebBrowser);
    v.push(SuperType::DefaultAppMailClient);
    v.push(SuperType::M4vVideo);
    v.push(SuperType::M4aAudio);
    proof {
        assert(v@ =~= old(v)@ + seq![SuperType::PropertyList, SuperType::Mpeg2TransportStream, SuperType::XmlPropertyList, SuperType::BinaryPropertyList, SuperType::Log, SuperType::Bookmark, SuperType::InternetLocation, SuperType::InternetShortcut, SuperType::DefaultAppWebBrowser, SuperType::DefaultAppMailClient, SuperType::M4vVideo, SuperType::M4aAudio,]);
    }
}

impl SuperType {
    /// The canonical type-system string for this supertype.
    pub fn uti_string(&self) -> (r: &'static str)
        ensures
            r@ == uti_spec(*self),
    {
        match *self {
            SuperType::Text => "public.text",
            SuperType::PlainText => "public.plain-text",
            SuperType::Csv => "public.comma-separated-values-text",
            SuperType::Json => "public.json",
            SuperType::Xml => "public.xml",
            SuperType::Yaml => "public.yaml",
            SuperType::Html => "public.html",
            SuperType::Markdown => "net.daringfireball.markdown",
            SuperType::Rtf => "public.rtf",
            SuperType::Image => "public.image",
            SuperType::RawImage => "public.camera-raw-image",
            SuperType::Png => "public.png",
            SuperType::Jpeg => "public.jpeg",
            SuperType::Gif => "com.compuserve.gif",
            SuperType::Tiff => "public.tiff",
            SuperType::Svg => "public.svg-image",
            SuperType::WebP => "org.webmproject.webp",
            SuperType::Heic => "public.heic",
            SuperType::Heif => "public.heif",
            SuperType::Bmp => "com.microsoft.bmp",
            SuperType::Audio => "public.audio",
            SuperType::Mp3 => "public.mp3",
            SuperType::Wav => "com.microsoft.waveform-audio",
            SuperType::Aiff => "public.aiff-audio",
            SuperType::Midi => "public.midi-audio",
            SuperType::Mp4Audio => "public.mpeg-4-audio",
            SuperType::AppleProtectedMp4Audio => "com.apple.protected-mpeg-4-audio",
            SuperType::Flac => "org.xiph.flac",
            SuperType::OggAudio => "org.xiph.ogg-audio",
            SuperType::Ac3Audio => "public.ac3-audio",
            SuperType::AacAudio => "public.aac-audio",
            SuperType::Video => "public.video",
            SuperType::Mpeg2TransportStream => "mpeg2-transport-stream",
            SuperType::Movie => "public.movie",
            SuperType::QuicktimeMovie => "com.apple.quicktime-movie",
            SuperType::Mp4Movie => "public.mpeg-4",
            SuperType::AppleProtectedMp4Video => "com.apple.protected-mpeg-4-video",
            SuperType::Mpeg => "public.mpeg",
            SuperType::Mpeg2Video => "public.mpeg-2-video",
            SuperType::Avi => "public.avi",
            SuperType::DvMovie => "public.dv-movie",
            SuperType::RealMedia => "com.real.realmedia",
            SuperType::RealAudio => "com.real.realaudio",
            SuperType::Webm => "org.webmproject.webm",
            SuperType::Matroska => "org.matroska.mkv",
            SuperType::M3uPlaylist => "m3u-playlist",
            SuperType::Archive => "public.archive",
            SuperType::Zip => "public.zip-archive",
            SuperType::Gzip => "org.gnu.gnu-zip-archive",
            SuperType::Tar => "public.tar-archive",
            SuperType::Bz2 => "public.bzip2-archive",
            SuperType::AppleArchive => "com.apple.archive",
            SuperType::Sourcecode => "public.source-code",
            SuperType::CSource => "public.c-source",
            SuperType::CHeader => "public.c-header",
            SuperType::CppSource => "public.c-plus-plus-source",
            SuperType::CppHeader => "public.c-plus-plus-header",
            SuperType::ObjcSource => "public.objective-c-source",
            SuperType::ObjcPlusPlusSource => "public.objective-c-plus-plus-source",
            SuperType::SwiftSource => "public.swift-source",
            SuperType::Shell => "public.shell-script",
            SuperType::Makefile => "public.make-source",
            SuperType::Javascript => "com.netscape.javascript-source",
            SuperType::PythonScript => "public.python-script",
            SuperType::RubyScript => "public.ruby-script",
            SuperType::PerlScript => "public.perl-script",
            SuperType::PhpScript => "public.php-script",
            SuperType::AppleScript => "com.apple.applescript.text",
            SuperType::AssemblySource => "public.assembly-source",
            SuperType::Data => "public.data",
            SuperType::Directory => "public.directory",
            SuperType::Folder => "public.folder",
            SuperType::Symlink => "public.symlink",
            SuperType::Executable => "public.executable",
            SuperType::UnixExecutable => "public.unix-executable",
            SuperType::AppBundle => "com.apple.application-bundle",
            SuperType::Framework => "com.apple.framework",
            SuperType::DiskImage => "public.disk-image",
            SuperType::Volume => "public.volume",
            SuperType::MountPoint => "com.apple.mount-point",
            SuperType::AliasFile => "com.apple.alias-file",
            SuperType::ThreeDContent => "public.3d-content",
            SuperType::Usd => "com.pixar.universal-scene-description",
            SuperType::Usdz => "com.pixar.universal-scene-description-mobile",
            SuperType::RealityFile => "com.apple.reality",
            SuperType::SceneKitScene => "com.apple.scenekit.scene",
            SuperType::Font => "public.font",
            SuperType::Pkcs12 => "com.rsa.pkcs-12",
            SuperType::X509Certificate => "public.x509-certificate",
            SuperType::Url => "public.url",
            SuperType::FileUrl => "public.file-url",
            SuperType::UrlBookmarkData => "com.apple.bookmark",
            SuperType::PropertyList => "com.apple.property-list",
            SuperType::XmlPropertyList => "com.apple.xml-property-list",
            SuperType::BinaryPropertyList => "com.apple.binary-property-list",
            SuperType::Log => "public.log",
            SuperType::Bookmark => "public.bookmark",
            SuperType::InternetLocation => "com.apple.web-internet-location",
            SuperType::InternetShortcut => "com.microsoft.internet-shortcut",
            SuperType::DefaultAppWebBrowser => "com.apple.default-app.web-browser",
            SuperType::DefaultAppMailClient => "com.apple.default-app.mail-client",
            SuperType::M4vVideo => "com.apple.m4v-video",
            SuperType::M4aAudio => "com.apple.m4a-audio",
        }
    }

    /// The stable lowercase-hyphenated display name of this supertype.
    pub fn display_name(&self) -> (r: &'static str)
        ensures
            r@ == name_spec(*self),
    {
        match *self {
            SuperType::Text => "text",
            SuperType::PlainText => "plain-text",
            SuperType::Csv => "csv",
            SuperType::Json => "json",
            SuperType::Xml => "xml",
            SuperType::Yaml => "yaml",
            SuperType::Html => "html",
            SuperType::Markdown => "markdown",
            SuperType::Rtf => "rtf",
            SuperType::Image => "image",
            SuperType::RawImage => "raw-image",
            SuperType::Png => "png",
            SuperType::Jpeg => "jpeg",
            SuperType::Gif => "gif",
            SuperType::Tiff => "tiff",
            SuperType::Svg => "svg",
            SuperType::WebP => "webp",
            SuperType::Heic => "heic",
            SuperType::Heif => "heif",
            SuperType::Bmp => "bmp",
            SuperType::Audio => "audio",
            SuperType::Mp3 => "mp3",
            SuperType::Wav => "wav",
            SuperType::Aiff => "aiff",
            SuperType::Midi => "midi",
            SuperType::Mp4Audio => "mp4-audio",
            SuperType::AppleProtectedMp4Audio => "apple-protected-mp4-audio",
            SuperType::Flac => "flac",
            SuperType::OggAudio => "ogg-audio",
            SuperType::Ac3Audio => "ac3-audio",
            SuperType::AacAudio => "aac-audio",
            SuperType::Video => "video",
            SuperType::Mpeg2TransportStream => "mpeg2-transport-stream",
            SuperType::Movie => "movie",
            SuperType::QuicktimeMovie => "quicktime-movie",
            SuperType::Mp4Movie => "mp4-movie",
            SuperType::AppleProtectedMp4Video => "apple-protected-mp4-video",
            SuperType::Mpeg => "mpeg",
            SuperType::Mpeg2Video => "mpeg2-video",
            SuperType::Avi => "avi",
            SuperType::DvMovie => "dv-movie",
            SuperType::RealMedia => "real-media",
            SuperType::RealAudio => "real-audio",
            SuperType::Webm => "webm",
            SuperType::Matroska => "matroska",
            SuperType::M3uPlaylist => "m3u-playlist",
            SuperType::Archive => "archive",
            SuperType::Zip => "zip",
            SuperType::Gzip => "gzip",
            SuperType::Tar => "tar",
            SuperType::Bz2 => "bz2",
            SuperType::AppleArchive => "apple-archive",
            SuperType::Sourcecode => "sourcecode",
            SuperType::CSource => "c-source",
            SuperType::CHeader => "c-header",
            SuperType::CppSource => "cpp-source",
            SuperType::CppHeader => "cpp-header",
            SuperType::ObjcSource => "objc-source",
            SuperType::ObjcPlusPlusSource => "objc-plus-plus-source",
            SuperType::SwiftSource => "swift-source",
            SuperType::Shell => "shell",
            SuperType::Makefile => "makefile",
            SuperType::Javascript => "javascript",
            SuperType::PythonScript => "python-script",
            SuperType::RubyScript => "ruby-script",
            SuperType::PerlScript => "perl-script",
            SuperType::PhpScript => "php-script",
            SuperType::AppleScript => "apple-script",
            SuperType::AssemblySource => "assembly-source",
            SuperType::Data => "data",
            SuperType::Directory => "directory",
            SuperType::Folder => "folder",
            SuperType::Symlink => "symlink",
            SuperType::Executable => "executable",
            SuperType::UnixExecutable => "unix-executable",
            SuperType::AppBundle => "app-bundle",
            SuperType::Framework => "framework",
            SuperType::DiskImage => "disk-image",
            SuperType::Volume => "volume",
            SuperType::MountPoint => "mount-point",
            SuperType::AliasFile => "alias-file",
            SuperType::ThreeDContent => "3d-content",
            SuperType::Usd => "usd",
            SuperType::Usdz => "usdz",
            SuperType::RealityFile => "reality-file",
            SuperType::SceneKitScene => "scenekit-scene",
            SuperType::Font => "font",
            SuperType::Pkcs12 => "pkcs12",
            SuperType::X509Certificate => "x509-certificate",
            SuperType::Url => "url",
            SuperType::FileUrl => "file-url",
            SuperType::UrlBookmarkData => "url-bookmark-data",
            SuperType::PropertyList => "property-list",
            SuperType::XmlPropertyList => "xml-property-list",
            SuperType::BinaryPropertyList => "binary-property-list",
            SuperType::Log => "log",
            SuperType::Bookmark => "bookmark",
            SuperType::InternetLocation => "internet-location",
            SuperType::InternetShortcut => "internet-shortcut",
            SuperType::DefaultAppWebBrowser => "default-app-web-browser",
            SuperType::DefaultAppMailClient => "default-app-mail-client",
            SuperType::M4vVideo => "m4v-video",
            SuperType::M4aAudio => "m4a-audio",
        }
    }

    /// Every supertype the vocabulary recognizes.
    pub fn all() -> (r: Vec<SuperType>)
        ensures
            r@ == all_spec(),
    {
        let mut v: Vec<SuperType> = Vec::new();
        push_supertypes_0(&mut v);
        push_supertypes_1(&mut v);
        push_supertypes_2(&mut v);
        push_supertypes_3(&mut v);
        push_supertypes_4(&mut v);
        push_supertypes_5(&mut v);
        push_supertypes_6(&mut v);
        push_supertypes_7(&mut v);
        proof {
            assert(v@ =~= all_spec());
        }
        v
    }

    /// Find the supertype whose canonical string equals `uti`, if any.
    pub fn from_uti_string(uti: &str) -> (r: Option<SuperType>)
        ensures
            r == from_uti_spec(uti@),
    {
        if str_eq(uti, "public.text") {
            Some(SuperType::Text)
        } else if str_eq(uti, "public.plain-text") {
            Some(SuperType::PlainText)
        } else if str_eq(uti, "public.comma-separated-values-text") {
            Some(SuperType::Csv)
        } else if str_eq(uti, "public.json") {
            Some(SuperType::Json)
        } else if str_eq(uti, "public.xml") {
            Some(SuperType::Xml)
        } else if str_eq(uti, "public.yaml") {
            Some(SuperType::Yaml)
        } else if str_eq(uti, "public.html") {
            Some(SuperType::Html)
        } else if str_eq(uti, "net.daringfireball.markdown") {
            Some(SuperType::Markdown)
        } else if str_eq(uti, "public.rtf") {
            Some(SuperType::Rtf)
        } else if str_eq(uti, "public.image") {
            Some(SuperType::Image)
        } else if str_eq(uti, "public.camera-raw-image") {
            Some(SuperType::RawImage)
        } else if str_eq(uti, "public.png") {
            Some(SuperType::Png)
        } else if str_eq(uti, "public.jpeg") {
            Some(SuperType::Jpeg)
        } else if str_eq(uti, "com.compuserve.gif") {
            Some(SuperType::Gif)
        } else if str_eq(uti, "public.tiff") {
            Some(SuperType::Tiff)
        } else if str_eq(uti, "public.svg-image") {
            Some(SuperType::Svg)
        } else if str_eq(uti, "org.webmproject.webp") {
            Some(SuperType::WebP)
        } else if str_eq(uti, "public.heic") {
            Some(SuperType::Heic)
        } else if str_eq(uti, "public.heif") {
            Some(SuperType::Heif)
        } else if str_eq(uti, "com.microsoft.bmp") {
            Some(SuperType::Bmp)
        } else if str_eq(uti, "public.audio") {
            Some(SuperType::Audio)
        } else if str_eq(uti, "public.mp3") {
            Some(SuperType::Mp3)
        } else if str_eq(uti, "com.microsoft.waveform-audio") {
            Some(SuperType::Wav)
        } else if str_eq(uti, "public.aiff-audio") {
            Some(SuperType::Aiff)
        } else if str_eq(uti, "public.midi-audio") {
            Some(SuperType::Midi)
        } else if str_eq(uti, "public.mpeg-4-audio") {
            Some(SuperType::Mp4Audio)
        } else if str_eq(uti, "com.apple.protected-mpeg-4-audio") {
            Some(SuperType::AppleProtectedMp4Audio)
        } else if str_eq(uti, "org.xiph.flac") {
            Some(SuperType::Flac)
        } else if str_eq(uti, "org.xiph.ogg-audio") {
            Some(SuperType::OggAudio)
        } else if str_eq(uti, "public.ac3-audio") {
            Some(SuperType::Ac3Audio)
        } else if str_eq(uti, "public.aac-audio") {
            Some(SuperType::AacAudio)
        } else if str_eq(uti, "public.video") {
            Some(SuperType::Video)
        } else if str_eq(uti, "mpeg2-transport-stream") {
            Some(SuperType::Mpeg2TransportStream)
        } else if str_eq(uti, "public.movie") {
            Some(SuperType::Movie)
        } else if str_eq(uti, "com.apple.quicktime-movie") {
            Some(SuperType::QuicktimeMovie)
        } else if str_eq(uti, "public.mpeg-4") {
            Some(SuperType::Mp4Movie)
        } else if str_eq(uti, "com.apple.protected-mpeg-4-video") {
            Some(SuperType::AppleProtectedMp4Video)
        } else if str_eq(uti, "public.mpeg") {
            Some(SuperType::Mpeg)
        } else if str_eq(uti, "public.mpeg-2-video") {
            Some(SuperType::Mpeg2Video)
        } else if str_eq(uti, "public.avi") {
            Some(SuperType::Avi)
        } else if str_eq(uti, "public.dv-movie") {
            Some(SuperType::DvMovie)
        } else if str_eq(uti, "com.real.realmedia") {
            Some(SuperType::RealMedia)
        } else if str_eq(uti, "com.real.realaudio") {
            Some(SuperType::RealAudio)
        } else if str_eq(uti, "org.webmproject.webm") {
            Some(SuperType::Webm)
        } else if str_eq(uti, "org.matroska.mkv") {
            Some(SuperType::Matroska)
        } else if str_eq(uti, "m3u-playlist") {
            Some(SuperType::M3uPlaylist)
        } else if str_eq(uti, "public.archive") {
            Some(SuperType::Archive)
        } else if str_eq(uti, "public.zip-archive") {
            Some(SuperType::Zip)
        } else if str_eq(uti, "org.gnu.gnu-zip-archive") {
            Some(SuperType::Gzip)
        } else if str_eq(uti, "public.tar-archive") {
            Some(SuperType::Tar)
        } else if str_eq(uti, "public.bzip2-archive") {
            Some(SuperType::Bz2)
        } else if str_eq(uti, "com.apple.archive") {
            Some(SuperType::AppleArchive)
        } else if str_eq(uti, "public.source-code") {
            Some(SuperType::Sourcecode)
        } else if str_eq(uti, "public.c-source") {
            Some(SuperType::CSource)
        } else if str_eq(uti, "public.c-header") {
            Some(SuperType::CHeader)
        } else if str_eq(uti, "public.c-plus-plus-source") {
            Some(SuperType::CppSource)
        } else if str_eq(uti, "public.c-plus-plus-header") {
            Some(SuperType::CppHeader)
        } else if str_eq(uti, "public.objective-c-source") {
            Some(SuperType::ObjcSource)
        } else if str_eq(uti, "public.objective-c-plus-plus-source") {
            Some(SuperType::ObjcPlusPlusSource)
        } else if str_eq(uti, "public.swift-source") {
            Some(SuperType::SwiftSource)
        } else if str_eq(uti, "public.shell-script") {
            Some(SuperType::Shell)
        } else if str_eq(uti, "public.make-source") {
            Some(SuperType::Makefile)
        } else if str_eq(uti, "com.netscape.javascript-source") {
            Some(SuperType::Javascript)
        } else if str_eq(uti, "public.python-script") {
            Some(SuperType::PythonScript)
        } else if str_eq(uti, "public.ruby-script") {
            Some(SuperType::RubyScript)
        } else if str_eq(uti, "public.perl-script") {
            Some(SuperType::PerlScript)
        } else if str_eq(uti, "public.php-script") {
            Some(SuperType::PhpScript)
        } else if str_eq(uti, "com.apple.applescript.text") {
            Some(SuperType::AppleScript)
        } else if str_eq(uti, "public.assembly-source") {
            Some(SuperType::AssemblySource)
        } else if str_eq(uti, "public.data") {
            Some(SuperType::Data)
        } else if str_eq(uti, "public.directory") {
            Some(SuperType::Directory)
        } else if str_eq(uti, "public.folder") {
            Some(SuperType::Folder)
        } else if str_eq(uti, "public.symlink") {
            Some(SuperType::Symlink)
        } else if str_eq(uti, "public.executable") {
            Some(SuperType::Executable)
        } else if str_eq(uti, "public.unix-executable") {
            Some(SuperType::UnixExecutable)
        } else if str_eq(uti, "com.apple.application-bundle") {
            Some(SuperType::AppBundle)
        } else if str_eq(uti, "com.apple.framework") {
            Some(SuperType::Framework)
        } else if str_eq(uti, "public.disk-image") {
            Some(SuperType::DiskImage)
        } else if str_eq(uti, "public.volume") {
            Some(SuperType::Volume)
        } else if str_eq(uti, "com.apple.mount-point") {
            Some(SuperType::MountPoint)
        } else if str_eq(uti, "com.apple.alias-file") {
            Some(SuperType::AliasFile)
        } else if str_eq(uti, "public.3d-content") {
            Some(SuperType::ThreeDContent)
        } else if str_eq(uti, "com.pixar.universal-scene-description") {
            Some(SuperType::Usd)
        } else if str_eq(uti, "com.pixar.universal-scene-description-mobile") {
            Some(SuperType::Usdz)
        } else if str_eq(uti, "com.apple.reality") {
            Some(SuperType::RealityFile)
        } else if str_eq(uti, "com.apple.scenekit.scene") {
            Some(SuperType::SceneKitScene)
        } else if str_eq(uti, "public.font") {
            Some(SuperType::Font)
        } else if str_eq(uti, "com.rsa.pkcs-12") {
            Some(SuperType::Pkcs12)
        } else if str_eq(uti, "public.x509-certificate") {
            Some(SuperType::X509Certificate)
        } else if str_eq(uti, "public.url") {
            Some(SuperType::Url)
        } else if str_eq(uti, "public.file-url") {
            Some(SuperType::FileUrl)
        } else if str_eq(uti, "com.apple.bookmark") {
            Some(SuperType::UrlBookmarkData)
        } else if str_eq(uti, "com.apple.property-list") {
            Some(SuperType::PropertyList)
        } else if str_eq(uti, "com.apple.xml-property-list") {
            Some(SuperType::XmlPropertyList)
        } else if str_eq(uti, "com.apple.binary-property-list") {
            Some(SuperType::BinaryPropertyList)
        } else if str_eq(uti, "public.log") {
            Some(SuperType::Log)
        } else if str_eq(uti, "public.bookmark") {
            Some(SuperType::Bookmark)
        } else if str_eq(uti, "com.apple.web-internet-location") {
            Some(SuperType::InternetLocation)
        } else if str_eq(uti, "com.microsoft.internet-shortcut") {
            Some(SuperType::InternetShortcut)
        } else if str_eq(uti, "com.apple.default-app.web-browser") {
            Some(SuperType::DefaultAppWebBrowser)
        } else if str_eq(uti, "com.apple.default-app.mail-client") {
            Some(SuperType::DefaultAppMailClient)
        } else if str_eq(uti, "com.apple.m4v-video") {
            Some(SuperType::M4vVideo)
        } else if str_eq(uti, "com.apple.m4a-audio") {
            Some(SuperType::M4aAudio)
        } else {
            None
        }
    }

    /// Parse a human-supplied supertype name.  The name is matched after
    /// normalization to lower case with underscores replaced by hyphens;
    /// every display name of the vocabulary is accepted, besides a few
    /// aliases; an unknown name is a typed failure, never a panic.
    pub fn parse(name: &str) -> (r: Result<SuperType, InfatError>)
        ensures
            parse_spec(normalized(name@)) matches Some(st) ==> r == Ok::<SuperType, InfatError>(st),
            parse_spec(normalized(name@)) is None ==> (r matches Err(e)
                && e matches InfatError::UnsupportedSupertype { name: n } && n@ == name@),
    {
        if eq_normalized(name, "text") {
            Ok(SuperType::Text)
        } else if eq_normalized(name, "plain-text") {
            Ok(SuperType::PlainText)
        } else if eq_normalized(name, "csv") {
            Ok(SuperType::Csv)
        } else if eq_normalized(name, "json") {
            Ok(SuperType::Json)
        } else if eq_normalized(name, "xml") {
            Ok(SuperType::Xml)
        } else if eq_normalized(name, "yaml") {
            Ok(SuperType::Yaml)
        } else if eq_normalized(name, "html") {
            Ok(SuperType::Html)
        } else if eq_normalized(name, "markdown") {
            Ok(SuperType::Markdown)
        } else if eq_normalized(name, "rtf") {
            Ok(SuperType::Rtf)
        } else if eq_normalized(name, "image") {
            Ok(SuperType::Image)
        } else if eq_normalized(name, "raw-image") {
            Ok(SuperType::RawImage)
        } else if eq_normalized(name, "png") {
            Ok(SuperType::Png)
        } else if eq_normalized(name, "jpeg") {
            Ok(SuperType::Jpeg)
        } else if eq_normalized(name, "gif") {
            Ok(SuperType::Gif)
        } else if eq_normalized(name, "tiff") {
            Ok(SuperType::Tiff)
        } else if eq_normalized(name, "svg") {
            Ok(SuperType::Svg)
        } else if eq_normalized(name, "webp") {
            Ok(SuperType::WebP)
        } else if eq_normalized(name, "heic") {
            Ok(SuperType::Heic)
        } else if eq_normalized(name, "heif") {
            Ok(SuperType::Heif)
        } else if eq_normalized(name, "bmp") {
            Ok(SuperType::Bmp)
        } else if eq_normalized(name, "audio") {
            Ok(SuperType::Audio)
        } else if eq_normalized(name, "mp3") {
            Ok(SuperType::Mp3)
        } else if eq_normalized(name, "wav") {
            Ok(SuperType::Wav)
        } else if eq_normalized(name, "aiff") {
            Ok(SuperType::Aiff)
        } else if eq_normalized(name, "midi") {
            Ok(SuperType::Midi)
        } else if eq_normalized(name, "mp4-audio") {
            Ok(SuperType::Mp4Audio)
        } else if eq_normalized(name, "apple-protected-mp4-audio") {
            Ok(SuperType::AppleProtectedMp4Audio)
        } else if eq_normalized(name, "flac") {
            Ok(SuperType::Flac)
        } else if eq_normalized(name, "ogg-audio") {
            Ok(SuperType::OggAudio)
        } else if eq_normalized(name, "ac3-audio") {
            Ok(SuperType::Ac3Audio)
        } else if eq_normalized(name, "aac-audio") {
            Ok(SuperType::AacAudio)
        } else if eq_normalized(name, "video") {
            Ok(SuperType::Video)
        } else if eq_normalized(name, "mpeg2-transport-stream") {
            Ok(SuperType::Mpeg2TransportStream)
        } else if eq_normalized(name, "movie") {
            Ok(SuperType::Movie)
        } else if eq_normalized(name, "quicktime-movie") {
            Ok(SuperType::QuicktimeMovie)
        } else if eq_normalized(name, "mp4-movie") {
            Ok(SuperType::Mp4Movie)
        } else if eq_normalized(name, "apple-protected-mp4-video") {
            Ok(SuperType::AppleProtectedMp4Video)
        } else if eq_normalized(name, "mpeg") {
            Ok(SuperType::Mpeg)
        } else if eq_normalized(name, "mpeg2-video") {
            Ok(SuperType::Mpeg2Video)
        } else if eq_normalized(name, "avi") {
            Ok(SuperType::Avi)
        } else if eq_normalized(name, "dv-movie") {
            Ok(SuperType::DvMovie)
        } else if eq_normalized(name, "real-media") {
            Ok(SuperType::RealMedia)
        } else if eq_normalized(name, "real-audio") {
            Ok(SuperType::RealAudio)
        } else if eq_normalized(name, "webm") {
            Ok(SuperType::Webm)
        } else if eq_normalized(name, "matroska") {
            Ok(SuperType::Matroska)
        } else if eq_normalized(name, "m3u-playlist") {
            Ok(SuperType::M3uPlaylist)
        } else if eq_normalized(name, "archive") {
            Ok(SuperType::Archive)
        } else if eq_normalized(name, "zip") {
            Ok(SuperType::Zip)
        } else if eq_normalized(name, "gzip") {
            Ok(SuperType::Gzip)
        } else if eq_normalized(name, "tar") {
            Ok(SuperType::Tar)
        } else if eq_normalized(name, "bz2") {
            Ok(SuperType::Bz2)
        } else if eq_normalized(name, "apple-archive") {
            Ok(SuperType::AppleArchive)
        } else if eq_normalized(name, "sourcecode") {
            Ok(SuperType::Sourcecode)
        } else if eq_normalized(name, "c-source") {
            Ok(SuperType::CSource)
        } else if eq_normalized(name, "c-header") {
            Ok(SuperType::CHeader)
        } else if eq_normalized(name, "cpp-source") {
            Ok(SuperType::CppSource)
        } else if eq_normalized(name, "cpp-header") {
            Ok(SuperType::CppHeader)
        } else if eq_normalized(name, "objc-source") {
            Ok(SuperType::ObjcSource)
        } else if eq_normalized(name, "objc-plus-plus-source") {
            Ok(SuperType::ObjcPlusPlusSource)
        } else if eq_normalized(name, "swift-source") {
            Ok(SuperType::SwiftSource)
        } else if eq_normalized(name, "shell") {
            Ok(SuperType::Shell)
        } else if eq_normalized(name, "makefile") {
            Ok(SuperType::Makefile)
        } else if eq_normalized(name, "javascript") {
            Ok(SuperType::Javascript)
        } else if eq_normalized(name, "python-script") {
            Ok(SuperType::PythonScript)
        } else if eq_normalized(name, "ruby-script") {
            Ok(SuperType::RubyScript)
        } else if eq_normalized(name, "perl-script") {
            Ok(SuperType::PerlScript)
        } else if eq_normalized(name, "php-script") {
            Ok(SuperType::PhpScript)
        } else if eq_normalized(name, "apple-script") {
            Ok(SuperType::AppleScript)
        } else if eq_normalized(name, "assembly-source") {
            Ok(SuperType::AssemblySource)
        } else if eq_normalized(name, "data") {
            Ok(SuperType::Data)
        } else if eq_normalized(name, "directory") {
            Ok(SuperType::Directory)
        } else if eq_normalized(name, "folder") {
            Ok(SuperType::Folder)
        } else if eq_normalized(name, "symlink") {
            Ok(SuperType::Symlink)
        } else if eq_normalized(name, "executable") {
            Ok(SuperType::Executable)
        } else if eq_normalized(name, "unix-executable") {
            Ok(SuperType::UnixExecutable)
        } else if eq_normalized(name, "app-bundle") {
            Ok(SuperType::AppBundle)
        } else if eq_normalized(name, "framework") {
            Ok(SuperType::Framework)
        } else if eq_normalized(name, "disk-image") {
            Ok(SuperType::DiskImage)
        } else if eq_normalized(name, "volume") {
            Ok(SuperType::Volume)
        } else if eq_normalized(name, "mount-point") {
            Ok(SuperType::MountPoint)
        } else if eq_normalized(name, "alias-file") {
            Ok(SuperType::AliasFile)
        } else if eq_normalized(name, "3d-content") {
            Ok(SuperType::ThreeDContent)
        } else if eq_normalized(name, "usd") {
            Ok(SuperType::Usd)
        } else if eq_normalized(name, "usdz") {
            Ok(SuperType::Usdz)
        } else if eq_normalized(name, "reality-file") {
            Ok(SuperType::RealityFile)
        } else if eq_normalized(name, "scenekit-scene") {
            Ok(SuperType::SceneKitScene)
        } else if eq_normalized(name, "font") {
            Ok(SuperType::Font)
        } else if eq_normalized(name, "pkcs12") {
            Ok(SuperType::Pkcs12)
        } else if eq_normalized(name, "x509-certificate") {
            Ok(SuperType::X509Certificate)
        } else if eq_normalized(name, "url") {
            Ok(SuperType::Url)
        } else if eq_normalized(name, "file-url") {
            Ok(SuperType::FileUrl)
        } else if eq_normalized(name, "url-bookmark-data") {
            Ok(SuperType::UrlBookmarkData)
        } else if eq_normalized(name, "property-list") {
            Ok(SuperType::PropertyList)
        } else if eq_normalized(name, "xml-property-list") {
            Ok(SuperType::XmlPropertyList)
        } else if eq_normalized(name, "binary-property-list") {
            Ok(SuperType::BinaryPropertyList)
        } else if eq_normalized(name, "log") {
            Ok(SuperType::Log)
        } else if eq_normalized(name, "bookmark") {
            Ok(SuperType::Bookmark)
        } else if eq_normalized(name, "internet-location") {
            Ok(SuperType::InternetLocation)
        } else if eq_normalized(name, "internet-shortcut") {
            Ok(SuperType::InternetShortcut)
        } else if eq_normalized(name, "default-app-web-browser") {
            Ok(SuperType::DefaultAppWebBrowser)
        } else if eq_normalized(name, "default-app-mail-client") {
            Ok(SuperType::DefaultAppMailClient)
        } else if eq_normalized(name, "m4v-video") {
            Ok(SuperType::M4vVideo)
        } else if eq_normalized(name, "m4a-audio") {
            Ok(SuperType::M4aAudio)
        } else if eq_normalized(name, "comma-separated-text") {
            Ok(SuperType::Csv)
        } else if eq_normalized(name, "mpeg4-movie") {
            Ok(SuperType::Mp4Movie)
        } else if eq_normalized(name, "m3u") {
            Ok(SuperType::M3uPlaylist)
        } else {
            Err(InfatError::UnsupportedSupertype { name: name.to_owned() })
        }
    }
}


/// Does looking this supertype's canonical string back up recover a
/// supertype with the same canonical string?
pub open spec fn round_trip_ok(st: SuperType) -> bool {
    from_uti_spec(uti_spec(st)) matches Some(back) && uti_spec(back) == uti_spec(st)
}

#[verifier::rlimit(100)]
proof fn lemma_round_trip_group_0(st: SuperType)
    requires
        st is Text || st is PlainText || st is Csv || st is Json || st is Xml || st is Yaml || st is Html || st is Markdown || st is Rtf || st is Image || st is RawImage || st is Png || st is Jpeg,
    ensures
        round_trip_ok(st),
{
    match st {
        SuperType::Text => assert(round_trip_ok(st)),
        SuperType::PlainText => assert(round_trip_ok(st)),
        SuperType::Csv => assert(round_trip_ok(st)),
        SuperType::Json => assert(round_trip_ok(st)),
        SuperType::Xml => assert(round_trip_ok(st)),
        SuperType::Yaml => assert(round_trip_ok(st)),
        SuperType::Html => assert(round_trip_ok(st)),
        SuperType::Markdown => assert(round_trip_ok(st)),
        SuperType::Rtf => assert(round_trip_ok(st)),
        SuperType::Image => assert(round_trip_ok(st)),
        SuperType::RawImage => assert(round_trip_ok(st)),
        SuperType::Png => assert(round_trip_ok(st)),
        SuperType::Jpeg => assert(round_trip_ok(st)),
        _ => (),
    }
}

#[verifier::rlimit(100)]
proof fn lemma_round_trip_group_1(st: SuperType)
    requires
        st is Gif || st is Tiff || st is Svg || st is WebP || st is Heic || st is Heif || st is Bmp || st is Audio || st is Mp3 || st is Wav || st is Aiff || st is Midi || st is Mp4Audio,
    ensures
        round_trip_ok(st),
{
    match st {
        SuperType::Gif => assert(round_trip_ok(st)),
        SuperType::Tiff => assert(round_trip_ok(st)),
        SuperType::Svg => assert(round_trip_ok(st)),
        SuperType::WebP => assert(round_trip_ok(st)),
        SuperType::Heic => assert(round_trip_ok(st)),
        SuperType::Heif => assert(round_trip_ok(st)),
        SuperType::Bmp => assert(round_trip_ok(st)),
        SuperType::Audio => assert(round_trip_ok(st)),
        SuperType::Mp3 => assert(round_trip_ok(st)),
        SuperType::Wav => assert(round_trip_ok(st)),
        SuperType::Aiff => assert(round_trip_ok(st)),
        SuperType::Midi => assert(round_trip_ok(st)),
        SuperType::Mp4Audio => assert(round_trip_ok(st)),
        _ => (),
    }
}

#[verifier::rlimit(100)]
proof fn lemma_round_trip_group_2(st: SuperType)
    requires
        st is AppleProtectedMp4Audio || st is Flac || st is OggAudio || st is Ac3Audio || st is AacAudio || st is Video || st is Mpeg2TransportStream || st is Movie || st is QuicktimeMovie || st is Mp4Movie || st is AppleProtectedMp4Video || st is Mpeg || st is Mpeg2Video,
    ensures
        round_trip_ok(st),
{
    match st {
        SuperType::AppleProtectedMp4Audio => assert(round_trip_ok(st)),
        SuperType::Flac => assert(round_trip_ok(st)),
        SuperType::OggAudio => assert(round_trip_ok(st)),
        SuperType::Ac3Audio => assert(round_trip_ok(st)),
        SuperType::AacAudio => assert(round_trip_ok(st)),
        SuperType::Video => assert(round_trip_ok(st)),
        SuperType::Mpeg2TransportStream => assert(round_trip_ok(st)),
        SuperType::Movie => assert(round_trip_ok(st)),
        SuperType::QuicktimeMovie => assert(round_trip_ok(st)),
        SuperType::Mp4Movie => assert(round_trip_ok(st)),
        SuperType::AppleProtectedMp4Video => assert(round_trip_ok(st)),
        SuperType::Mpeg => assert(round_trip_ok(st)),
        SuperType::Mpeg2Video => assert(round_trip_ok(st)),
        _ => (),
    }
}

#[verifier::rlimit(100)]
proof fn lemma_round_trip_group_3(st: SuperType)
    requires
        st is Avi || st is DvMovie || st is RealMedia || st is RealAudio || st is Webm || st is Matroska || st is M3uPlaylist || st is Archive || st is Zip || st is Gzip || st is Tar || st is Bz2 || st is AppleArchive,
    ensures
        round_trip_ok(st),
{
    match st {
        SuperType::Avi => assert(round_trip_ok(st)),
        SuperType::DvMovie => assert(round_trip_ok(st)),
        SuperType::RealMedia => assert(round_trip_ok(st)),
        SuperType::RealAudio => assert(round_trip_ok(st)),
        SuperType::Webm => assert(round_trip_ok(st)),
        SuperType::Matroska => assert(round_trip_ok(st)),
        SuperType::M3uPlaylist => assert(round_trip_ok(st)),
        SuperType::Archive => assert(round_trip_ok(st)),
        SuperType::Zip => assert(round_trip_ok(st)),
        SuperType::Gzip => assert(round_trip_ok(st)),
        SuperType::Tar => assert(round_trip_ok(st)),
        SuperType::Bz2 => assert(round_trip_ok(st)),
        SuperType::AppleArchive => assert(round_trip_ok(st)),
        _ => (),
    }
}

#[verifier::rlimit(100)]
proof fn lemma_round_trip_group_4(st: SuperType)
    requires
        st is Sourcecode || st is CSource || st is CHeader || st is CppSource || st is CppHeader || st is ObjcSource || st is ObjcPlusPlusSource || st is SwiftSource || st is Shell || st is Makefile || st is Javascript || st is PythonScript || st is RubyScript,
    ensures
        round_trip_ok(st),
{
    match st {
        SuperType::Sourcecode => assert(round_trip_ok(st)),
        SuperType::CSource => assert(round_trip_ok(st)),
        SuperType::CHeader => assert(round_trip_ok(st)),
        SuperType::CppSource => assert(round_trip_ok(st)),
        SuperType::CppHeader => assert(round_trip_ok(st)),
        SuperType::ObjcSource => assert(round_trip_ok(st)),
        SuperType::ObjcPlusPlusSource => assert(round_trip_ok(st)),
        SuperType::SwiftSource => assert(round_trip_ok(st)),
        SuperType::Shell => assert(round_trip_ok(st)),
        SuperType::Makefile => assert(round_trip_ok(st)),
        SuperType::Javascript => assert(round_trip_ok(st)),
        SuperType::PythonScript => assert(round_trip_ok(st)),
        SuperType::RubyScript => assert(round_trip_ok(st)),
        _ => (),
    }
}

#[verifier::rlimit(100)]
proof fn lemma_round_trip_group_5(st: SuperType)
    requires
        st is PerlScript || st is PhpScript || st is AppleScript || st is AssemblySource || st is Data || st is Directory || st is Folder || st is Symlink || st is Executable || st is UnixExecutable || st is AppBundle || st is Framework || st is DiskImage,
    ensures
        round_trip_ok(st),
{
    match st {
        SuperType::PerlScript => assert(round_trip_ok(st)),
        SuperType::PhpScript => assert(round_trip_ok(st)),
        SuperType::AppleScript => assert(round_trip_ok(st)),
        SuperType::AssemblySource => assert(round_trip_ok(st)),
        SuperType::Data => assert(round_trip_ok(st)),
        SuperType::Directory => assert(round_trip_ok(st)),
        SuperType::Folder => assert(round_trip_ok(st)),
        SuperType::Symlink => assert(round_trip_ok(st)),
        SuperType::Executable => assert(round_trip_ok(st)),
        SuperType::UnixExecutable => assert(round_trip_ok(st)),
        SuperType::AppBundle => assert(round_trip_ok(st)),
        SuperType::Framework => assert(round_trip_ok(st)),
        SuperType::DiskImage => assert(round_trip_ok(st)),
        _ => (),
    }
}

#[verifier::rlimit(100)]
proof fn lemma_round_trip_group_6(st: SuperType)
    requires
        st is Volume || st is MountPoint || st is AliasFile || st is ThreeDContent || st is Usd || st is Usdz || st is RealityFile || st is SceneKitScene || st is Font || st is Pkcs12 || st is X509Certificate || st is Url || st is FileUrl,
    ensures
        round_trip_ok(st),
{
    match st {
        SuperType::Volume => assert(round_trip_ok(st)),
        SuperType::MountPoint => assert(round_trip_ok(st)),
        SuperType::AliasFile => assert(round_trip_ok(st)),
        SuperType::ThreeDContent => assert(round_trip_ok(st)),
        SuperType::Usd => assert(round_trip_ok(st)),
        SuperType::Usdz => assert(round_trip_ok(st)),
        SuperType::RealityFile => assert(round_trip_ok(st)),
        SuperType::SceneKitScene => assert(round_trip_ok(st)),
        SuperType::Font => assert(round_trip_ok(st)),
        SuperType::Pkcs12 => assert(round_trip_ok(st)),
        SuperType::X509Certificate => assert(round_trip_ok(st)),
        SuperType::Url => assert(round_trip_ok(st)),
        SuperType::FileUrl => assert(round_trip_ok(st)),
        _ => (),
    }
}

#[verifier::rlimit(100)]
proof fn lemma_round_trip_group_7(st: SuperType)
    requires
        st is UrlBookmarkData || st is PropertyList || st is XmlPropertyList || st is BinaryPropertyList || st is Log || st is Bookmark || st is InternetLocation || st is InternetShortcut || st is DefaultAppWebBrowser || st is DefaultAppMailClient || st is M4vVideo || st is M4aAudio,
    ensures
        round_trip_ok(st),
{
    match st {
        SuperType::UrlBookmarkData => assert(round_trip_ok(st)),
        SuperType::PropertyList => assert(round_trip_ok(st)),
        SuperType::XmlPropertyList => assert(round_trip_ok(st)),
        SuperType::BinaryPropertyList => assert(round_trip_ok(st)),
        SuperType::Log => assert(round_trip_ok(st)),
        SuperType::Bookmark => assert(round_trip_ok(st)),
        SuperType::InternetLocation => assert(round_trip_ok(st)),
        SuperType::InternetShortcut => assert(round_trip_ok(st)),
        SuperType::DefaultAppWebBrowser => assert(round_trip_ok(st)),
        SuperType::DefaultAppMailClient => assert(round_trip_ok(st)),
        SuperType::M4vVideo => assert(round_trip_ok(st)),
        SuperType::M4aAudio => assert(round_trip_ok(st)),
        _ => (),
    }
}

/// Law: a supertype's canonical string, looked back up in the vocabulary,
/// always recovers a supertype equal to the original by canonical string.
pub proof fn lemma_canonical_round_trip(st: SuperType)
    ensures
        round_trip_ok(st),
{
    match st {
        SuperType::Text => lemma_round_trip_group_0(st),
        SuperType::PlainText => lemma_round_trip_group_0(st),
        SuperType::Csv => lemma_round_trip_group_0(st),
        SuperType::Json => lemma_round_trip_group_0(st),
        SuperType::Xml => lemma_round_trip_group_0(st),
        SuperType::Yaml => lemma_round_trip_group_0(st),
        SuperType::Html => lemma_round_trip_group_0(st),
        SuperType::Markdown => lemma_round_trip_group_0(st),
        SuperType::Rtf => lemma_round_trip_group_0(st),
        SuperType::Image => lemma_round_trip_group_0(st),
        SuperType::RawImage => lemma_round_trip_group_0(st),
        SuperType::Png => lemma_round_trip_group_0(st),
        SuperType::Jpeg => lemma_round_trip_group_0(st),
        SuperType::Gif => lemma_round_trip_group_1(st),
        SuperType::Tiff => lemma_round_trip_group_1(st),
        SuperType::Svg => lemma_round_trip_group_1(st),
        SuperType::WebP => lemma_round_trip_group_1(st),
        SuperType::Heic => lemma_round_trip_group_1(st),
        SuperType::Heif => lemma_round_trip_group_1(st),
        SuperType::Bmp => lemma_round_trip_group_1(st),
        SuperType::Audio => lemma_round_trip_group_1(st),
        SuperType::Mp3 => lemma_round_trip_group_1(st),
        SuperType::Wav => lemma_round_trip_group_1(st),
        SuperType::Aiff => lemma_round_trip_group_1(st),
        SuperType::Midi => lemma_round_trip_group_1(st),
        SuperType::Mp4Audio => lemma_round_trip_group_1(st),
        SuperType::AppleProtectedMp4Audio => lemma_round_trip_group_2(st),
        SuperType::Flac => lemma_round_trip_group_2(st),
        SuperType::OggAudio => lemma_round_trip_group_2(st),
        SuperType::Ac3Audio => lemma_round_trip_group_2(st),
        SuperType::AacAudio => lemma_round_trip_group_2(st),
        SuperType::Video => lemma_round_trip_group_2(st),
        SuperType::Mpeg2TransportStream => lemma_round_trip_group_2(st),
        SuperType::Movie => lemma_round_trip_group_2(st),
        SuperType::QuicktimeMovie => lemma_round_trip_group_2(st),
        SuperType::Mp4Movie => lemma_round_trip_group_2(st),
        SuperType::AppleProtectedMp4Video => lemma_round_trip_group_2(st),
        SuperType::Mpeg => lemma_round_trip_group_2(st),
        SuperType::Mpeg2Video => lemma_round_trip_group_2(st),
        SuperType::Avi => lemma_round_trip_group_3(st),
        SuperType::DvMovie => lemma_round_trip_group_3(st),
        SuperType::RealMedia => lemma_round_trip_group_3(st),
        SuperType::RealAudio => lemma_round_trip_group_3(st),
        SuperType::Webm => lemma_round_trip_group_3(st),
        SuperType::Matroska => lemma_round_trip_group_3(st),
        SuperType::M3uPlaylist => lemma_round_trip_group_3(st),
        SuperType::Archive => lemma_round_trip_group_3(st),
        SuperType::Zip => lemma_round_trip_group_3(st),
        SuperType::Gzip => lemma_round_trip_group_3(st),
        SuperType::Tar => lemma_round_trip_group_3(st),
        SuperType::Bz2 => lemma_round_trip_group_3(st),
        SuperType::AppleArchive => lemma_round_trip_group_3(st),
        SuperType::Sourcecode => lemma_round_trip_group_4(st),
        SuperType::CSource => lemma_round_trip_group_4(st),
        SuperType::CHeader => lemma_round_trip_group_4(st),
        SuperType::CppSource => lemma_round_trip_group_4(st),
        SuperType::CppHeader => lemma_round_trip_group_4(st),
        SuperType::ObjcSource => lemma_round_trip_group_4(st),
        SuperType::ObjcPlusPlusSource => lemma_round_trip_group_4(st),
        SuperType::SwiftSource => lemma_round_trip_group_4(st),
        SuperType::Shell => lemma_round_trip_group_4(st),
        SuperType::Makefile => lemma_round_trip_group_4(st),
        SuperType::Javascript => lemma_round_trip_group_4(st),
        SuperType::PythonScript => lemma_round_trip_group_4(st),
        SuperType::RubyScript => lemma_round_trip_group_4(st),
        SuperType::PerlScript => lemma_round_trip_group_5(st),
        SuperType::PhpScript => lemma_round_trip_group_5(st),
        SuperType::AppleScript => lemma_round_trip_group_5(st),
        SuperType::AssemblySource => lemma_round_trip_group_5(st),
        SuperType::Data => lemma_round_trip_group_5(st),
        SuperType::Directory => lemma_round_trip_group_5(st),
        SuperType::Folder => lemma_round_trip_group_5(st),
        SuperType::Symlink => lemma_round_trip_group_5(st),
        SuperType::Executable => lemma_round_trip_group_5(st),
        SuperType::UnixExecutable => lemma_round_trip_group_5(st),
        SuperType::AppBundle => lemma_round_trip_group_5(st),
        SuperType::Framework => lemma_round_trip_group_5(st),
        SuperType::DiskImage => lemma_round_trip_group_5(st),
        SuperType::Volume => lemma_round_trip_group_6(st),
        SuperType::MountPoint => lemma_round_trip_group_6(st),
        SuperType::AliasFile => lemma_round_trip_group_6(st),
        SuperType::ThreeDContent => lemma_round_trip_group_6(st),
        SuperType::Usd => lemma_round_trip_group_6(st),
        SuperType::Usdz => lemma_round_trip_group_6(st),
        SuperType::RealityFile => lemma_round_trip_group_6(st),
        SuperType::SceneKitScene => lemma_round_trip_group_6(st),
        SuperType::Font => lemma_round_trip_group_6(st),
        SuperType::Pkcs12 => lemma_round_trip_group_6(st),
        SuperType::X509Certificate => lemma_round_trip_group_6(st),
        SuperType::Url => lemma_round_trip_group_6(st),
        SuperType::FileUrl => lemma_round_trip_group_6(st),
        SuperType::UrlBookmarkData => lemma_round_trip_group_7(st),
        SuperType::PropertyList => lemma_round_trip_group_7(st),
        SuperType::XmlPropertyList => lemma_round_trip_group_7(st),
        SuperType::BinaryPropertyList => lemma_round_trip_group_7(st),
        SuperType::Log => lemma_round_trip_group_7(st),
        SuperType::Bookmark => lemma_round_trip_group_7(st),
        SuperType::InternetLocation => lemma_round_trip_group_7(st),
        SuperType::InternetShortcut => lemma_round_trip_group_7(st),
        SuperType::DefaultAppWebBrowser => lemma_round_trip_group_7(st),
        SuperType::DefaultAppMailClient => lemma_round_trip_group_7(st),
        SuperType::M4vVideo => lemma_round_trip_group_7(st),
        SuperType::M4aAudio => lemma_round_trip_group_7(st),
    }
}

/// Law: for every name the vocabulary recognizes, parsing it and taking the
/// canonical string round-trips through the canonical-string lookup.
pub proof fn lemma_parse_round_trip(name: Seq<char>)
    ensures
        parse_spec(normalized(name)) matches Some(st) ==> round_trip_ok(st),
{
    match parse_spec(normalized(name)) {
        Some(st) => lemma_canonical_round_trip(st),
        None => (),
    }
}

/// Law: a name containing a dot is never a recognized supertype name, so a
/// dotted type identifier always falls through to verbatim pass-through.
#[verifier::rlimit(100)]
pub proof fn lemma_dotted_name_unrecognized(s: Seq<char>)
    requires
        contains_char_spec(s, '.'),
    ensures
        parse_spec(normalized(s)) is None,
{
    let n = normalized(s);
    let i = choose|i: int| 0 <= i < s.len() && s[i] == '.';
    assert(0 <= i < s.len() && s[i] == '.');
    assert(n[i] == '.');
    reveal_strlit("text");
    reveal_strlit("plain-text");
    reveal_strlit("csv");
    reveal_strlit("json");
    reveal_strlit("xml");
    reveal_strlit("yaml");
    reveal_strlit("html");
    reveal_strlit("markdown");
    reveal_strlit("rtf");
    reveal_strlit("image");
    reveal_strlit("raw-image");
    reveal_strlit("png");
    reveal_strlit("jpeg");
    reveal_strlit("gif");
    reveal_strlit("tiff");
    reveal_strlit("svg");
    reveal_strlit("webp");
    reveal_strlit("heic");
    reveal_strlit("heif");
    reveal_strlit("bmp");
    reveal_strlit("audio");
    reveal_strlit("mp3");
    reveal_strlit("wav");
    reveal_strlit("aiff");
    reveal_strlit("midi");
    reveal_strlit("mp4-audio");
    reveal_strlit("apple-protected-mp4-audio");
    reveal_strlit("flac");
    reveal_strlit("ogg-audio");
    reveal_strlit("ac3-audio");
    reveal_strlit("aac-audio");
    reveal_strlit("video");
    reveal_strlit("mpeg2-transport-stream");
    reveal_strlit("movie");
    reveal_strlit("quicktime-movie");
    reveal_strlit("mp4-movie");
    reveal_strlit("apple-protected-mp4-video");
    reveal_strlit("mpeg");
    reveal_strlit("mpeg2-video");
    reveal_strlit("avi");
    reveal_strlit("dv-movie");
    reveal_strlit("real-media");
    reveal_strlit("real-audio");
    reveal_strlit("webm");
    reveal_strlit("matroska");
    reveal_strlit("m3u-playlist");
    reveal_strlit("archive");
    reveal_strlit("zip");
    reveal_strlit("gzip");
    reveal_strlit("tar");
    reveal_strlit("bz2");
    reveal_strlit("apple-archive");
    reveal_strlit("sourcecode");
    reveal_strlit("c-source");
    reveal_strlit("c-header");
    reveal_strlit("cpp-source");
    reveal_strlit("cpp-header");
    reveal_strlit("objc-source");
    reveal_strlit("objc-plus-plus-source");
    reveal_strlit("swift-source");
    reveal_strlit("shell");
    reveal_strlit("makefile");
    reveal_strlit("javascript");
    reveal_strlit("python-script");
    reveal_strlit("ruby-script");
    reveal_strlit("perl-script");
    reveal_strlit("php-script");
    reveal_strlit("apple-script");
    reveal_strlit("assembly-source");
    reveal_strlit("data");
    reveal_strlit("directory");
    reveal_strlit("folder");
    reveal_strlit("symlink");
    reveal_strlit("executable");
    reveal_strlit("unix-executable");
    reveal_strlit("app-bundle");
    reveal_strlit("framework");
    reveal_strlit("disk-image");
    reveal_strlit("volume");
    reveal_strlit("mount-point");
    reveal_strlit("alias-file");
    reveal_strlit("3d-content");
    reveal_strlit("usd");
    reveal_strlit("usdz");
    reveal_strlit("reality-file");
    reveal_strlit("scenekit-scene");
    reveal_strlit("font");
    reveal_strlit("pkcs12");
    reveal_strlit("x509-certificate");
    reveal_strlit("url");
    reveal_strlit("file-url");
    reveal_strlit("url-bookmark-data");
    reveal_strlit("property-list");
    reveal_strlit("xml-property-list");
    reveal_strlit("binary-property-list");
    reveal_strlit("log");
    reveal_strlit("bookmark");
    reveal_strlit("internet-location");
    reveal_strlit("internet-shortcut");
    reveal_strlit("default-app-web-browser");
    reveal_strlit("default-app-mail-client");
    reveal_strlit("m4v-video");
    reveal_strlit("m4a-audio");
    reveal_strlit("comma-separated-text");
    reveal_strlit("mpeg4-movie");
    reveal_strlit("m3u");
    if n == "text"@ {
        assert(n.len() == 4);
        assert("text"@[i] == '.');
        assert(false);
    }
    if n == "plain-text"@ {
        assert(n.len() == 10);
        assert("plain-text"@[i] == '.');
        assert(false);
    }
    if n == "csv"@ {
        assert(n.len() == 3);
        assert("csv"@[i] == '.');
        assert(false);
    }
    if n == "json"@ {
        assert(n.len() == 4);
        assert("json"@[i] == '.');
        assert(false);
    }
    if n == "xml"@ {
        assert(n.len() == 3);
        assert("xml"@[i] == '.');
        assert(false);
    }
    if n == "yaml"@ {
        assert(n.len() == 4);
        assert("yaml"@[i] == '.');
        assert(false);
    }
    if n == "html"@ {
        assert(n.len() == 4);
        assert("html"@[i] == '.');
        assert(false);
    }
    if n == "markdown"@ {
        assert(n.len() == 8);
        assert("markdown"@[i] == '.');
        assert(false);
    }
    if n == "rtf"@ {
        assert(n.len() == 3);
        assert("rtf"@[i] == '.');
        assert(false);
    }
    if n == "image"@ {
        assert(n.len() == 5);
        assert("image"@[i] == '.');
        assert(false);
    }
    if n == "raw-image"@ {
        assert(n.len() == 9);
        assert("raw-image"@[i] == '.');
        assert(false);
    }
    if n == "png"@ {
        assert(n.len() == 3);
        assert("png"@[i] == '.');
        assert(false);
    }
    if n == "jpeg"@ {
        assert(n.len() == 4);
        assert("jpeg"@[i] == '.');
        assert(false);
    }
    if n == "gif"@ {
        assert(n.len() == 3);
        assert("gif"@[i] == '.');
        assert(false);
    }
    if n == "tiff"@ {
        assert(n.len() == 4);
        assert("tiff"@[i] == '.');
        assert(false);
    }
    if n == "svg"@ {
        assert(n.len() == 3);
        assert("svg"@[i] == '.');
        assert(false);
    }
    if n == "webp"@ {
        assert(n.len() == 4);
        assert("webp"@[i] == '.');
        assert(false);
    }
    if n == "heic"@ {
        assert(n.len() == 4);
        assert("heic"@[i] == '.');
        assert(false);
    }
    if n == "heif"@ {
        assert(n.len() == 4);
        assert("heif"@[i] == '.');
        assert(false);
    }
    if n == "bmp"@ {
        assert(n.len() == 3);
        assert("bmp"@[i] == '.');
        assert(false);
    }
    if n == "audio"@ {
        assert(n.len() == 5);
        assert("audio"@[i] == '.');
        assert(false);
    }
    if n == "mp3"@ {
        assert(n.len() == 3);
        assert("mp3"@[i] == '.');
        assert(false);
    }
    if n == "wav"@ {
        assert(n.len() == 3);
        assert("wav"@[i] == '.');
        assert(false);
    }
    if n == "aiff"@ {
        assert(n.len() == 4);
        assert("aiff"@[i] == '.');
        assert(false);
    }
    if n == "midi"@ {
        assert(n.len() == 4);
        assert("midi"@[i] == '.');
        assert(false);
    }
    if n == "mp4-audio"@ {
        assert(n.len() == 9);
        assert("mp4-audio"@[i] == '.');
        assert(false);
    }
    if n == "apple-protected-mp4-audio"@ {
        assert(n.len() == 25);
        assert("apple-protected-mp4-audio"@[i] == '.');
        assert(false);
    }
    if n == "flac"@ {
        assert(n.len() == 4);
        assert("flac"@[i] == '.');
        assert(false);
    }
    if n == "ogg-audio"@ {
        assert(n.len() == 9);
        assert("ogg-audio"@[i] == '.');
        assert(false);
    }
    if n == "ac3-audio"@ {
        assert(n.len() == 9);
        assert("ac3-audio"@[i] == '.');
        assert(false);
    }
    if n == "aac-audio"@ {
        assert(n.len() == 9);
        assert("aac-audio"@[i] == '.');
        assert(false);
    }
    if n == "video"@ {
        assert(n.len() == 5);
        assert("video"@[i] == '.');
        assert(false);
    }
    if n == "mpeg2-transport-stream"@ {
        assert(n.len() == 22);
        assert("mpeg2-transport-stream"@[i] == '.');
        assert(false);
    }
    if n == "movie"@ {
        assert(n.len() == 5);
        assert("movie"@[i] == '.');
        assert(false);
    }
    if n == "quicktime-movie"@ {
        assert(n.len() == 15);
        assert("quicktime-movie"@[i] == '.');
        assert(false);
    }
    if n == "mp4-movie"@ {
        assert(n.len() == 9);
        assert("mp4-movie"@[i] == '.');
        assert(false);
    }
    if n == "apple-protected-mp4-video"@ {
        assert(n.len() == 25);
        assert("apple-protected-mp4-video"@[i] == '.');
        assert(false);
    }
    if n == "mpeg"@ {
        assert(n.len() == 4);
        assert("mpeg"@[i] == '.');
        assert(false);
    }
    if n == "mpeg2-video"@ {
        assert(n.len() == 11);
        assert("mpeg2-video"@[i] == '.');
        assert(false);
    }
    if n == "avi"@ {
        assert(n.len() == 3);
        assert("avi"@[i] == '.');
        assert(false);
    }
    if n == "dv-movie"@ {
        assert(n.len() == 8);
        assert("dv-movie"@[i] == '.');
        assert(false);
    }
    if n == "real-media"@ {
        assert(n.len() == 10);
        assert("real-media"@[i] == '.');
        assert(false);
    }
    if n == "real-audio"@ {
        assert(n.len() == 10);
        assert("real-audio"@[i] == '.');
        assert(false);
    }
    if n == "webm"@ {
        assert(n.len() == 4);
        assert("webm"@[i] == '.');
        assert(false);
    }
    if n == "matroska"@ {
        assert(n.len() == 8);
        assert("matroska"@[i] == '.');
        assert(false);
    }
    if n == "m3u-playlist"@ {
        assert(n.len() == 12);
        assert("m3u-playlist"@[i] == '.');
        assert(false);
    }
    if n == "archive"@ {
        assert(n.len() == 7);
        assert("archive"@[i] == '.');
        assert(false);
    }
    if n == "zip"@ {
        assert(n.len() == 3);
        assert("zip"@[i] == '.');
        assert(false);
    }
    if n == "gzip"@ {
        assert(n.len() == 4);
        assert("gzip"@[i] == '.');
        assert(false);
    }
    if n == "tar"@ {
        assert(n.len() == 3);
        assert("tar"@[i] == '.');
        assert(false);
    }
    if n == "bz2"@ {
        assert(n.len() == 3);
        assert("bz2"@[i] == '.');
        assert(false);
    }
    if n == "apple-archive"@ {
        assert(n.len() == 13);
        assert("apple-archive"@[i] == '.');
        assert(false);
    }
    if n == "sourcecode"@ {
        assert(n.len() == 10);
        assert("sourcecode"@[i] == '.');
        assert(false);
    }
    if n == "c-source"@ {
        assert(n.len() == 8);
        assert("c-source"@[i] == '.');
        assert(false);
    }
    if n == "c-header"@ {
        assert(n.len() == 8);
        assert("c-header"@[i] == '.');
        assert(false);
    }
    if n == "cpp-source"@ {
        assert(n.len() == 10);
        assert("cpp-source"@[i] == '.');
        assert(false);
    }
    if n == "cpp-header"@ {
        assert(n.len() == 10);
        assert("cpp-header"@[i] == '.');
        assert(false);
    }
    if n == "objc-source"@ {
        assert(n.len() == 11);
        assert("objc-source"@[i] == '.');
        assert(false);
    }
    if n == "objc-plus-plus-source"@ {
        assert(n.len() == 21);
        assert("objc-plus-plus-source"@[i] == '.');
        assert(false);
    }
    if n == "swift-source"@ {
        assert(n.len() == 12);
        assert("swift-source"@[i] == '.');
        assert(false);
    }
    if n == "shell"@ {
        assert(n.len() == 5);
        assert("shell"@[i] == '.');
        assert(false);
    }
    if n == "makefile"@ {
        assert(n.len() == 8);
        assert("makefile"@[i] == '.');
        assert(false);
    }
    if n == "javascript"@ {
        assert(n.len() == 10);
        assert("javascript"@[i] == '.');
        assert(false);
    }
    if n == "python-script"@ {
        assert(n.len() == 13);
        assert("python-script"@[i] == '.');
        assert(false);
    }
    if n == "ruby-script"@ {
        assert(n.len() == 11);
        assert("ruby-script"@[i] == '.');
        assert(false);
    }
    if n == "perl-script"@ {
        assert(n.len() == 11);
        assert("perl-script"@[i] == '.');
        assert(false);
    }
    if n == "php-script"@ {
        assert(n.len() == 10);
        assert("php-script"@[i] == '.');
        assert(false);
    }
    if n == "apple-script"@ {
        assert(n.len() == 12);
        assert("apple-script"@[i] == '.');
        assert(false);
    }
    if n == "assembly-source"@ {
        assert(n.len() == 15);
        assert("assembly-source"@[i] == '.');
        assert(false);
    }
    if n == "data"@ {
        assert(n.len() == 4);
        assert("data"@[i] == '.');
        assert(false);
    }
    if n == "directory"@ {
        assert(n.len() == 9);
        assert("directory"@[i] == '.');
        assert(false);
    }
    if n == "folder"@ {
        assert(n.len() == 6);
        assert("folder"@[i] == '.');
        assert(false);
    }
    if n == "symlink"@ {
        assert(n.len() == 7);
        assert("symlink"@[i] == '.');
        assert(false);
    }
    if n == "executable"@ {
        assert(n.len() == 10);
        assert("executable"@[i] == '.');
        assert(false);
    }
    if n == "unix-executable"@ {
        assert(n.len() == 15);
        assert("unix-executable"@[i] == '.');
        assert(false);
    }
    if n == "app-bundle"@ {
        assert(n.len() == 10);
        assert("app-bundle"@[i] == '.');
        assert(false);
    }
    if n == "framework"@ {
        assert(n.len() == 9);
        assert("framework"@[i] == '.');
        assert(false);
    }
    if n == "disk-image"@ {
        assert(n.len() == 10);
        assert("disk-image"@[i] == '.');
        assert(false);
    }
    if n == "volume"@ {
        assert(n.len() == 6);
        assert("volume"@[i] == '.');
        assert(false);
    }
    if n == "mount-point"@ {
        assert(n.len() == 11);
        assert("mount-point"@[i] == '.');
        assert(false);
    }
    if n == "alias-file"@ {
        assert(n.len() == 10);
        assert("alias-file"@[i] == '.');
        assert(false);
    }
    if n == "3d-content"@ {
        assert(n.len() == 10);
        assert("3d-content"@[i] == '.');
        assert(false);
    }
    if n == "usd"@ {
        assert(n.len() == 3);
        assert("usd"@[i] == '.');
        assert(false);
    }
    if n == "usdz"@ {
        assert(n.len() == 4);
        assert("usdz"@[i] == '.');
        assert(false);
    }
    if n == "reality-file"@ {
        assert(n.len() == 12);
        assert("reality-file"@[i] == '.');
        assert(false);
    }
    if n == "scenekit-scene"@ {
        assert(n.len() == 14);
        assert("scenekit-scene"@[i] == '.');
        assert(false);
    }
    if n == "font"@ {
        assert(n.len() == 4);
        assert("font"@[i] == '.');
        assert(false);
    }
    if n == "pkcs12"@ {
        assert(n.len() == 6);
        assert("pkcs12"@[i] == '.');
        assert(false);
    }
    if n == "x509-certificate"@ {
        assert(n.len() == 16);
        assert("x509-certificate"@[i] == '.');
        assert(false);
    }
    if n == "url"@ {
        assert(n.len() == 3);
        assert("url"@[i] == '.');
        assert(false);
    }
    if n == "file-url"@ {
        assert(n.len() == 8);
        assert("file-url"@[i] == '.');
        assert(false);
    }
    if n == "url-bookmark-data"@ {
        assert(n.len() == 17);
        assert("url-bookmark-data"@[i] == '.');
        assert(false);
    }
    if n == "property-list"@ {
        assert(n.len() == 13);
        assert("property-list"@[i] == '.');
        assert(false);
    }
    if n == "xml-property-list"@ {
        assert(n.len() == 17);
        assert("xml-property-list"@[i] == '.');
        assert(false);
    }
    if n == "binary-property-list"@ {
        assert(n.len() == 20);
        assert("binary-property-list"@[i] == '.');
        assert(false);
    }
    if n == "log"@ {
        assert(n.len() == 3);
        assert("log"@[i] == '.');
        assert(false);
    }
    if n == "bookmark"@ {
        assert(n.len() == 8);
        assert("bookmark"@[i] == '.');
        assert(false);
    }
    if n == "internet-location"@ {
        assert(n.len() == 17);
        assert("internet-location"@[i] == '.');
        assert(false);
    }
    if n == "internet-shortcut"@ {
        assert(n.len() == 17);
        assert("internet-shortcut"@[i] == '.');
        assert(false);
    }
    if n == "default-app-web-browser"@ {
        assert(n.len() == 23);
        assert("default-app-web-browser"@[i] == '.');
        assert(false);
    }
    if n == "default-app-mail-client"@ {
        assert(n.len() == 23);
        assert("default-app-mail-client"@[i] == '.');
        assert(false);
    }
    if n == "m4v-video"@ {
        assert(n.len() == 9);
        assert("m4v-video"@[i] == '.');
        assert(false);
    }
    if n == "m4a-audio"@ {
        assert(n.len() == 9);
        assert("m4a-audio"@[i] == '.');
        assert(false);
    }
    if n == "comma-separated-text"@ {
        assert(n.len() == 20);
        assert("comma-separated-text"@[i] == '.');
        assert(false);
    }
    if n == "mpeg4-movie"@ {
        assert(n.len() == 11);
        assert("mpeg4-movie"@[i] == '.');
        assert(false);
    }
    if n == "m3u"@ {
        assert(n.len() == 3);
        assert("m3u"@[i] == '.');
        assert(false);
    }
}


proof fn lemma_display_parse_text()
    ensures
        parse_spec(normalized(name_spec(SuperType::Text))) == Some(SuperType::Text),
{
    reveal_strlit("text");
    assert(normalized(name_spec(SuperType::Text)) =~= "text"@);
    let n = normalized(name_spec(SuperType::Text));
    assert(parse_spec(n) == Some(SuperType::Text));
}

proof fn lemma_display_parse_plaintext()
    ensures
        parse_spec(normalized(name_spec(SuperType::PlainText))) == Some(SuperType::PlainText),
{
    reveal_strlit("plain-text");
    reveal_strlit("text");
    assert(normalized(name_spec(SuperType::PlainText)) =~= "plain-text"@);
    let n = normalized(name_spec(SuperType::PlainText));
    assert(n != "text"@) by {
        assert("plain-text"@.len() != "text"@.len());
    }
    assert(parse_spec(n) == Some(SuperType::PlainText));
}

proof fn lemma_display_parse_csv()
    ensures
        parse_spec(normalized(name_spec(SuperType::Csv))) == Some(SuperType::Csv),
{
    reveal_strlit("csv");
    reveal_strlit("text");
    reveal_strlit("plain-text");
    assert(normalized(name_spec(SuperType::Csv)) =~= "csv"@);
    let n = normalized(name_spec(SuperType::Csv));
    assert(n != "text"@) by {
        assert("csv"@.len() != "text"@.len());
    }
    assert(n != "plain-text"@) by {
        assert("csv"@.len() != "plain-text"@.len());
    }
    assert(parse_spec(n) == Some(SuperType::Csv));
}

proof fn lemma_display_parse_json()
    ensures
        parse_spec(normalized(name_spec(SuperType::Json))) == Some(SuperType::Json),
{
    reveal_strlit("json");
    reveal_strlit("text");
    reveal_strlit("plain-text");
    reveal_strlit("csv");
    assert(normalized(name_spec(SuperType::Json)) =~= "json"@);
    let n = normalized(name_spec(SuperType::Json));
    assert(n != "text"@) by {
        assert("json"@[0] != "text"@[0]);
    }
    assert(n != "plain-text"@) by {
        assert("json"@.len() != "plain-text"@.len());
    }
    assert(n != "csv"@) by {
        assert("json"@.len() != "csv"@.len());
    }
    assert(parse_spec(n) == Some(SuperType::Json));
}

proof fn lemma_display_parse_xml()
    ensures
        parse_spec(normalized(name_spec(SuperType::Xml))) == Some(SuperType::Xml),
{
    reveal_strlit("xml");
    reveal_strlit("text");
    reveal_strlit("plain-text");
    reveal_strlit("csv");
    reveal_strlit("json");
    assert(normalized(name_spec(SuperType::Xml)) =~= "xml"@);
    let n = normalized(name_spec(SuperType::Xml));
    assert(n != "text"@) by {
        assert("xml"@.len() != "text"@.len());
    }
    assert(n != "plain-text"@) by {
        assert("xml"@.len() != "plain-text"@.len());
    }
    assert(n != "csv"@) by {
        assert("xml"@[0] != "csv"@[0]);
    }
    assert(n != "json"@) by {
        assert("xml"@.len() != "json"@.len());
    }
    assert(parse_spec(n) == Some(SuperType::Xml));
}

proof fn lemma_display_parse_yaml()
    ensures
        parse_spec(normalized(name_spec(SuperType::Yaml))) == Some(SuperType::Yaml),
{
    reveal_strlit("yaml");
    reveal_strlit("text");
    reveal_strlit("plain-text");
    reveal_strlit("csv");
    reveal_strlit("json");
    reveal_strlit("xml");
    assert(normalized(name_spec(SuperType::Yaml)) =~= "yaml"@);
    let n = normalized(name_spec(SuperType::Yaml));
    assert(n != "text"@) by {
        assert("yaml"@[0] != "text"@[0]);
    }
    assert(n != "plain-text"@) by {
        assert("yaml"@.len() != "plain-text"@.len());
    }
    assert(n != "csv"@) by {
        assert("yaml"@.len() != "csv"@.len());
    }
    assert(n != "json"@) by {
        assert("yaml"@[0] != "json"@[0]);
    }
    assert(n != "xml"@) by {
        assert("yaml"@.len() != "xml"@.len());
    }
    assert(parse_spec(n) == Some(SuperType::Yaml));
}

proof fn lemma_display_parse_html()
    ensures
        parse_spec(normalized(name_spec(SuperType::Html))) == Some(SuperType::Html),
{
    reveal_strlit("html");
    reveal_strlit("text");
    reveal_strlit("plain-text");
    reveal_strlit("csv");
    reveal_strlit("json");
    reveal_strlit("xml");
    reveal_strlit("yaml");
    assert(normalized(name_spec(SuperType::Html)) =~= "html"@);
    let n = normalized(name_spec(SuperType::Html));
    assert(n != "text"@) by {
        assert("html"@[0] != "text"@[0]);
    }
    assert(n != "plain-text"@) by {
        assert("html"@.len() != "plain-text"@.len());
    }
    assert(n != "csv"@) by {
        assert("html"@.len() != "csv"@.len());
    }
    assert(n != "json"@) by {
        assert("html"@[0] != "json"@[0]);
    }
    assert(n != "xml"@) by {
        assert("html"@.len() != "xml"@.len());
    }
    assert(n != "yaml"@) by {
        assert("html"@[0] != "yaml"@[0]);
    }
    assert(parse_spec(n) == Some(SuperType::Html));
}

proof fn lemma_display_parse_markdown()
    ensures
        parse_spec(normalized(name_spec(SuperType::Markdown))) == Some(SuperType::Markdown),
{
    reveal_strlit("markdown");
    reveal_strlit("text");
    reveal_strlit("plain-text");
    reveal_strlit("csv");
    reveal_strlit("json");
    reveal_strlit("xml");
    reveal_strlit("yaml");
    reveal_strlit("html");
    assert(normalized(name_spec(SuperType::Markdown)) =~= "markdown"@);
    let n = normalized(name_spec(SuperType::Markdown));
    assert(n != "text"@) by {
        assert("markdown"@.len() != "text"@.len());
    }
    assert(n != "plain-text"@) by {
        assert("markdown"@.len() != "plain-text"@.len());
    }
    assert(n != "csv"@) by {
        assert("markdown"@.len() != "csv"@.len());
    }
    assert(n != "json"@) by {
        assert("markdown"@.len() != "json"@.len());
    }
    assert(n != "xml"@) by {
        assert("markdown"@.len() != "xml"@.len());
    }
    assert(n != "yaml"@) by {
        assert("markdown"@.len() != "yaml"@.len());
    }
    assert(n != "html"@) by {
        assert("markdown"@.len() != "html"@.len());
    }
    assert(parse_spec(n) == Some(SuperType::Markdown));
}

proof fn lemma_display_parse_rtf()
    ensures
        parse_spec(normalized(name_spec(SuperType::Rtf))) == Some(SuperType::Rtf),
{
    reveal_strlit("rtf");
    reveal_strlit("text");
    reveal_strlit("plain-text");
    reveal_strlit("csv");
    reveal_strlit("json");
    reveal_strlit("xml");
    reveal_strlit("yaml");
    reveal_strlit("html");
    reveal_strlit("markdown");
    assert(normalized(name_spec(SuperType::Rtf)) =~= "rtf"@);
    let n = normalized(name_spec(SuperType::Rtf));
    assert(n != "text"@) by {
        assert("rtf"@.len() != "text"@.len());
    }
    assert(n != "plain-text"@) by {
        assert("rtf"@.len() != "plain-text"@.len());
    }
    assert(n != "csv"@) by {
        assert("rtf"@[0] != "csv"@[0]);
    }
    assert(n != "json"@) by {
        assert("rtf"@.len() != "json"@.len());
    }
    assert(n != "xml"@) by {
        assert("rtf"@[0] != "xml"@[0]);
    }
    assert(n != "yaml"@) by {
        assert("rtf"@.len() != "yaml"@.len());
    }
    assert(n != "html"@) by {
        assert("rtf"@.len() != "html"@.len());
    }
    assert(n != "markdown"@) by {
        assert("rtf"@.len() != "markdown"@.len());
    }
    assert(parse_spec(n) == Some(SuperType::Rtf));
}

proof fn lemma_display_parse_image()
    ensures
        parse_spec(normalized(name_spec(SuperType::Image))) == Some(SuperType::Image),
{
    reveal_strlit("image");
    reveal_strlit("text");
    reveal_strlit("plain-text");
    reveal_strlit("csv");
    reveal_strlit("json");
    reveal_strlit("xml");
    reveal_strlit("yaml");
    reveal_strlit("html");
    reveal_strlit("markdown");
    reveal_strlit("rtf");
    assert(normalized(name_spec(SuperType::Image)) =~= "image"@);
    let n = normalized(name_spec(SuperType::Image));
    assert(n != "text"@) by {
        assert("image"@.len() != "text"@.len());
    }
    assert(n != "plain-text"@) by {
        assert("image"@.len() != "plain-text"@.len());
    }
    assert(n != "csv"@) by {
        assert("image"@.len() != "csv"@.len());
    }
    assert(n != "json"@) by {
        assert("image"@.len() != "json"@.len());
    }
    assert(n != "xml"@) by {
        assert("image"@.len() != "xml"@.len());
    }
    assert(n != "yaml"@) by {
        assert("image"@.len() != "yaml"@.len());
    }
    assert(n != "html"@) by {
        assert("image"@.len() != "html"@.len());
    }
    assert(n != "markdown"@) by {
        assert("image"@.len() != "markdown"@.len());
    }
    assert(n != "rtf"@) by {
        assert("image"@.len() != "rtf"@.len());
    }
    assert(parse_spec(n) == Some(SuperType::Image));
}

proof fn lemma_display_parse_rawimage()
    ensures
        parse_spec(normalized(name_spec(SuperType::RawImage))) == Some(SuperType::RawImage),
{
    reveal_strlit("raw-image");
    reveal_strlit("text");
    reveal_strlit("plain-text");
    reveal_strlit("csv");
    reveal_strlit("json");
    reveal_strlit("xml");
    reveal_strlit("yaml");
    reveal_strlit("html");
    reveal_strlit("markdown");
    reveal_strlit("rtf");
    reveal_strlit("image");
    assert(normalized(name_spec(SuperType::RawImage)) =~= "raw-image"@);
    let n = normalized(name_spec(SuperType::RawImage));
    assert(n != "text"@) by {
        assert("raw-image"@.len() != "text"@.len());
    }
    assert(n != "plain-text"@) by {
        assert("raw-image"@.len() != "plain-text"@.len());
    }
    assert(n != "csv"@) by {
        assert("raw-image"@.len() != "csv"@.len());
    }
    assert(n != "json"@) by {
        assert("raw-image"@.len() != "json"@.len());
    }
    assert(n != "xml"@) by {
        assert("raw-image"@.len() != "xml"@.len());
    }
    assert(n != "yaml"@) by {
        assert("raw-image"@.len() != "yaml"@.len());
    }
    assert(n != "html"@) by {
        assert("raw-image"@.len() != "html"@.len());
    }
    assert(n != "markdown"@) by {
        assert("raw-image"@.len() != "markdown"@.len());
    }
    assert(n != "rtf"@) by {
        assert("raw-image"@.len() != "rtf"@.len());
    }
    assert(n != "image"@) by {
        assert("raw-image"@.len() != "image"@.len());
    }
    assert(parse_spec(n) == Some(SuperType::RawImage));
}

proof fn lemma_display_parse_png()
    ensures
        parse_spec(normalized(name_spec(SuperType::Png))) == Some(SuperType::Png),
{
    reveal_strlit("png");
    reveal_strlit("text");
    reveal_strlit("plain-text");
    reveal_strlit("csv");
    reveal_strlit("json");
    reveal_strlit("xml");
    reveal_strlit("yaml");
    reveal_strlit("html");
    reveal_strlit("markdown");
    reveal_strlit("rtf");
    reveal_strlit("image");
    reveal_strlit("raw-image");
    assert(normalized(name_spec(SuperType::Png)) =~= "png"@);
    let n = normalized(name_spec(SuperType::Png));
    assert(n != "text"@) by {
        assert("png"@.len() != "text"@.len());
    }
    assert(n != "plain-text"@) by {
        assert("png"@.len() != "plain-text"@.len());
    }
    assert(n != "csv"@) by {
        assert("png"@[0] != "csv"@[0]);
    }
    assert(n != "json"@) by {
        assert("png"@.len() != "json"@.len());
    }
    assert(n != "xml"@) by {
        assert("png"@[0] != "xml"@[0]);
    }
    assert(n != "yaml"@) by {
        assert("png"@.len() != "yaml"@.len());
    }
    assert(n != "html"@) by {
        assert("png"@.len() != "html"@.len());
    }
    assert(n != "markdown"@) by {
        assert("png"@.len() != "markdown"@.len());
    }
    assert(n != "rtf"@) by {
        assert("png"@[0] != "rtf"@[0]);
    }
    assert(n != "image"@) by {
        assert("png"@.len() != "image"@.len());
    }
    assert(n != "raw-image"@) by {
        assert("png"@.len() != "raw-image"@.len());
    }
    assert(parse_spec(n) == Some(SuperType::Png));
}

proof fn lemma_display_parse_jpeg()
    ensures
        parse_spec(normalized(name_spec(SuperType::Jpeg))) == Some(SuperType::Jpeg),
{
    reveal_strlit("jpeg");
    reveal_strlit("text");
    reveal_strlit("plain-text");
    reveal_strlit("csv");
    reveal_strlit("json");
    reveal_strlit("xml");
    reveal_strlit("yaml");
    reveal_strlit("html");
    reveal_strlit("markdown");
    reveal_strlit("rtf");
    reveal_strlit("image");
    reveal_strlit("raw-image");
    reveal_strlit("png");
    assert(normalized(name_spec(SuperType::Jpeg)) =~= "jpeg"@);
    let n = normalized(name_spec(SuperType::Jpeg));
    assert(n != "text"@) by {
        assert("jpeg"@[0] != "text"@[0]);
    }
    assert(n != "plain-text"@) by {
        assert("jpeg"@.len() != "plain-text"@.len());
    }
    assert(n != "csv"@) by {
        assert("jpeg"@.len() != "csv"@.len());
    }
    assert(n != "json"@) by {
        assert("jpeg"@[1] != "json"@[1]);
    }
    assert(n != "xml"@) by {
        assert("jpeg"@.len() != "xml"@.len());
    }
    assert(n != "yaml"@) by {
        assert("jpeg"@[0] != "yaml"@[0]);
    }
    assert(n != "html"@) by {
        assert("jpeg"@[0] != "html"@[0]);
    }
    assert(n != "markdown"@) by {
        assert("jpeg"@.len() != "markdown"@.len());
    }
    assert(n != "rtf"@) by {
        assert("jpeg"@.len() != "rtf"@.len());
    }
    assert(n != "image"@) by {
        assert("jpeg"@.len() != "image"@.len());
    }
    assert(n != "raw-image"@) by {
        assert("jpeg"@.len() != "raw-image"@.len());
    }
    assert(n != "png"@) by {
        assert("jpeg"@.len() != "png"@.len());
    }
    assert(parse_spec(n) == Some(SuperType::Jpeg));
}

proof fn lemma_display_parse_gif()
    ensures
        parse_spec(normalized(name_spec(SuperType::Gif))) == Some(SuperType::Gif),
{
    reveal_strlit("gif");
    reveal_strlit("text");
    reveal_strlit("plain-text");
    reveal_strlit("csv");
    reveal_strlit("json");
    reveal_strlit("xml");
    reveal_strlit("yaml");
    reveal_strlit("html");
    reveal_strlit("markdown");
    reveal_strlit("rtf");
    reveal_strlit("image");
    reveal_strlit("raw-image");
    reveal_strlit("png");
    reveal_strlit("jpeg");
    assert(normalized(name_spec(SuperType::Gif)) =~= "gif"@);
    let n = normalized(name_spec(SuperType::Gif));
    assert(n != "text"@) by {
        assert("gif"@.len() != "text"@.len());
    }
    assert(n != "plain-text"@) by {
        assert("gif"@.len() != "plain-text"@.len());
    }
    assert(n != "csv"@) by {
        assert("gif"@[0] != "csv"@[0]);
    }
    assert(n != "json"@) by {
        assert("gif"@.len() != "json"@.len());
    }
    assert(n != "xml"@) by {
        assert("gif"@[0] != "xml"@[0]);
    }
    assert(n != "yaml"@) by {
        assert("gif"@.len() != "yaml"@.len());
    }
    assert(n != "html"@) by {
        assert("gif"@.len() != "html"@.len());
    }
    assert(n != "markdown"@) by {
        assert("gif"@.len() != "markdown"@.len());
    }
    assert(n != "rtf"@) by {
        assert("gif"@[0] != "rtf"@[0]);
    }
    assert(n != "image"@) by {
        assert("gif"@.len() != "image"@.len());
    }
    assert(n != "raw-image"@) by {
        assert("gif"@.len() != "raw-image"@.len());
    }
    assert(n != "png"@) by {
        assert("gif"@[0] != "png"@[0]);
    }
    assert(n != "jpeg"@) by {
        assert("gif"@.len() != "jpeg"@.len());
    }
    assert(parse_spec(n) == Some(SuperType::Gif));
}

proof fn lemma_display_parse_tiff()
    ensures
        parse_spec(normalized(name_spec(SuperType::Tiff))) == Some(SuperType::Tiff),
{
    reveal_strlit("tiff");
    reveal_strlit("text");
    reveal_strlit("plain-text");
    reveal_strlit("csv");
    reveal_strlit("json");
    reveal_strlit("xml");
    reveal_strlit("yaml");
    reveal_strlit("html");
    reveal_strlit("markdown");
    reveal_strlit("rtf");
    reveal_strlit("image");
    reveal_strlit("raw-image");
    reveal_strlit("png");
    reveal_strlit("jpeg");
    reveal_strlit("gif");
    assert(normalized(name_spec(SuperType::Tiff)) =~= "tiff"@);
    let n = normalized(name_spec(SuperType::Tiff));
    assert(n != "text"@) by {
        assert("tiff"@[1] != "text"@[1]);
    }
    assert(n != "plain-text"@) by {
        assert("tiff"@.len() != "plain-text"@.len());
    }
    assert(n != "csv"@) by {
        assert("tiff"@.len() != "csv"@.len());
    }
    assert(n != "json"@) by {
        assert("tiff"@[0] != "json"@[0]);
    }
    assert(n != "xml"@) by {
        assert("tiff"@.len() != "xml"@.len());
    }
    assert(n != "yaml"@) by {
        assert("tiff"@[0] != "yaml"@[0]);
    }
    assert(n != "html"@) by {
        assert("tiff"@[0] != "html"@[0]);
    }
    assert(n != "markdown"@) by {
        assert("tiff"@.len() != "markdown"@.len());
    }
    assert(n != "rtf"@) by {
        assert("tiff"@.len() != "rtf"@.len());
    }
    assert(n != "image"@) by {
        assert("tiff"@.len() != "image"@.len());
    }
    assert(n != "raw-image"@) by {
        assert("tiff"@.len() != "raw-image"@.len());
    }
    assert(n != "png"@) by {
        assert("tiff"@.len() != "png"@.len());
    }
    assert(n != "jpeg"@) by {
        assert("tiff"@[0] != "jpeg"@[0]);
    }
    assert(n != "gif"@) by {
        assert("tiff"@.len() != "gif"@.len());
    }
    assert(parse_spec(n) == Some(SuperType::Tiff));
}

proof fn lemma_display_parse_svg()
    ensures
        parse_spec(normalized(name_spec(SuperType::Svg))) == Some(SuperType::Svg),
{
    reveal_strlit("svg");
    reveal_strlit("text");
    reveal_strlit("plain-text");
    reveal_strlit("csv");
    reveal_strlit("json");
    reveal_strlit("xml");
    reveal_strlit("yaml");
    reveal_strlit("html");
    reveal_strlit("markdown");
    reveal_strlit("rtf");
    reveal_strlit("image");
    reveal_strlit("raw-image");
    reveal_strlit("png");
    reveal_strlit("jpeg");
    reveal_strlit("gif");
    reveal_strlit("tiff");
    assert(normalized(name_spec(SuperType::Svg)) =~= "svg"@);
    let n = normalized(name_spec(SuperType::Svg));
    assert(n != "text"@) by {
        assert("svg"@.len() != "text"@.len());
    }
    assert(n != "plain-text"@) by {
        assert("svg"@.len() != "plain-text"@.len());
    }
    assert(n != "csv"@) by {
        assert("svg"@[0] != "csv"@[0]);
    }
    assert(n != "json"@) by {
        assert("svg"@.len() != "json"@.len());
    }
    assert(n != "xml"@) by {
        assert("svg"@[0] != "xml"@[0]);
    }
    assert(n != "yaml"@) by {
        assert("svg"@.len() != "yaml"@.len());
    }
    assert(n != "html"@) by {
        assert("svg"@.len() != "html"@.len());
    }
    assert(n != "markdown"@) by {
        assert("svg"@.len() != "markdown"@.len());
    }
    assert(n != "rtf"@) by {
        assert("svg"@[0] != "rtf"@[0]);
    }
    assert(n != "image"@) by {
        assert("svg"@.len() != "image"@.len());
    }
    assert(n != "raw-image"@) by {
        assert("svg"@.len() != "raw-image"@.len());
    }
    assert(n != "png"@) by {
        assert("svg"@[0] != "png"@[0]);
    }
    assert(n != "jpeg"@) by {
        assert("svg"@.len() != "jpeg"@.len());
    }
    assert(n != "gif"@) by {
        assert("svg"@[0] != "gif"@[0]);
    }
    assert(n != "tiff"@) by {
        assert("svg"@.len() != "tiff"@.len());
    }
    assert(parse_spec(n) == Some(SuperType::Svg));
}

proof fn lemma_display_parse_webp()
    ensures
        parse_spec(normalized(name_spec(SuperType::WebP))) == Some(SuperType::WebP),
{
    reveal_strlit("webp");
    reveal_strlit("text");
    reveal_strlit("plain-text");
    reveal_strlit("csv");
    reveal_strlit("json");
    reveal_strlit("xml");
    reveal_strlit("yaml");
    reveal_strlit("html");
    reveal_strlit("markdown");
    reveal_strlit("rtf");
    reveal_strlit("image");
    reveal_strlit("raw-image");
    reveal_strlit("png");
    reveal_strlit("jpeg");
    reveal_strlit("gif");
    reveal_strlit("tiff");
    reveal_strlit("svg");
    assert(normalized(name_spec(SuperType::WebP)) =~= "webp"@);
    let n = normalized(name_spec(SuperType::WebP));
    assert(n != "text"@) by {
        assert("webp"@[0] != "text"@[0]);
    }
    assert(n != "plain-text"@) by {
        assert("webp"@.len() != "plain-text"@.len());
    }
    assert(n != "csv"@) by {
        assert("webp"@.len() != "csv"@.len());
    }
    assert(n != "json"@) by {
        assert("webp"@[0] != "json"@[0]);
    }
    assert(n != "xml"@) by {
        assert("webp"@.len() != "xml"@.len());
    }
    assert(n != "yaml"@) by {
        assert("webp"@[0] != "yaml"@[0]);
    }
    assert(n != "html"@) by {
        assert("webp"@[0] != "html"@[0]);
    }
    assert(n != "markdown"@) by {
        assert("webp"@.len() != "markdown"@.len());
    }
    assert(n != "rtf"@) by {
        assert("webp"@.len() != "rtf"@.len());
    }
    assert(n != "image"@) by {
        assert("webp"@.len() != "image"@.len());
    }
    assert(n != "raw-image"@) by {
        assert("webp"@.len() != "raw-image"@.len());
    }
    assert(n != "png"@) by {
        assert("webp"@.len() != "png"@.len());
    }
    assert(n != "jpeg"@) by {
        assert("webp"@[0] != "jpeg"@[0]);
    }
    assert(n != "gif"@) by {
        assert("webp"@.len() != "gif"@.len());
    }
    assert(n != "tiff"@) by {
        assert("webp"@[0] != "tiff"@[0]);
    }
    assert(n != "svg"@) by {
        assert("webp"@.len() != "svg"@.len());
    }
    assert(parse_spec(n) == Some(SuperType::WebP));
}

proof fn lemma_display_parse_heic()
    ensures
        parse_spec(normalized(name_spec(SuperType::Heic))) == Some(SuperType::Heic),
{
    reveal_strlit("heic");
    reveal_strlit("text");
    reveal_strlit("plain-text");
    reveal_strlit("csv");
    reveal_strlit("json");
    reveal_strlit("xml");
    reveal_strlit("yaml");
    reveal_strlit("html");
    reveal_strlit("markdown");
    reveal_strlit("rtf");
    reveal_strlit("image");
    reveal_strlit("raw-image");
    reveal_strlit("png");
    reveal_strlit("jpeg");
    reveal_strlit("gif");
    reveal_strlit("tiff");
    reveal_strlit("svg");
    reveal_strlit("webp");
    assert(normalized(name_spec(SuperType::Heic)) =~= "heic"@);
    let n = normalized(name_spec(SuperType::Heic));
    assert(n != "text"@) by {
        assert("heic"@[0] != "text"@[0]);
    }
    assert(n != "plain-text"@) by {
        assert("heic"@.len() != "plain-text"@.len());
    }
    assert(n != "csv"@) by {
        assert("heic"@.len() != "csv"@.len());
    }
    assert(n != "json"@) by {
        assert("heic"@[0] != "json"@[0]);
    }
    assert(n != "xml"@) by {
        assert("heic"@.len() != "xml"@.len());
    }
    assert(n != "yaml"@) by {
        assert("heic"@[0] != "yaml"@[0]);
    }
    assert(n != "html"@) by {
        assert("heic"@[1] != "html"@[1]);
    }
    assert(n != "markdown"@) by {
        assert("heic"@.len() != "markdown"@.len());
    }
    assert(n != "rtf"@) by {
        assert("heic"@.len() != "rtf"@.len());
    }
    assert(n != "image"@) by {
        assert("heic"@.len() != "image"@.len());
    }
    assert(n != "raw-image"@) by {
        assert("heic"@.len() != "raw-image"@.len());
    }
    assert(n != "png"@) by {
        assert("heic"@.len() != "png"@.len());
    }
    assert(n != "jpeg"@) by {
        assert("heic"@[0] != "jpeg"@[0]);
    }
    assert(n != "gif"@) by {
        assert("heic"@.len() != "gif"@.len());
    }
    assert(n != "tiff"@) by {
        assert("heic"@[0] != "tiff"@[0]);
    }
    assert(n != "svg"@) by {
        assert("heic"@.len() != "svg"@.len());
    }
    assert(n != "webp"@) by {
        assert("heic"@[0] != "webp"@[0]);
    }
    assert(parse_spec(n) == Some(SuperType::Heic));
}

proof fn lemma_display_parse_heif()
    ensures
        parse_spec(normalized(name_spec(SuperType::Heif))) == Some(SuperType::Heif),
{
    reveal_strlit("heif");
    reveal_strlit("text");
    reveal_strlit("plain-text");
    reveal_strlit("csv");
    reveal_strlit("json");
    reveal_strlit("xml");
    reveal_strlit("yaml");
    reveal_strlit("html");
    reveal_strlit("markdown");
    reveal_strlit("rtf");
    reveal_strlit("image");
    reveal_strlit("raw-image");
    reveal_strlit("png");
    reveal_strlit("jpeg");
    reveal_strlit("gif");
    reveal_strlit("tiff");
    reveal_strlit("svg");
    reveal_strlit("webp");
    reveal_strlit("heic");
    assert(normalized(name_spec(SuperType::Heif)) =~= "heif"@);
    let n = normalized(name_spec(SuperType::Heif));
    assert(n != "text"@) by {
        assert("heif"@[0] != "text"@[0]);
    }
    assert(n != "plain-text"@) by {
        assert("heif"@.len() != "plain-text"@.len());
    }
    assert(n != "csv"@) by {
        assert("heif"@.len() != "csv"@.len());
    }
    assert(n != "json"@) by {
        assert("heif"@[0] != "json"@[0]);
    }
    assert(n != "xml"@) by {
        assert("heif"@.len() != "xml"@.len());
    }
    assert(n != "yaml"@) by {
        assert("heif"@[0] != "yaml"@[0]);
    }
    assert(n != "html"@) by {
        assert("heif"@[1] != "html"@[1]);
    }
    assert(n != "markdown"@) by {
        assert("heif"@.len() != "markdown"@.len());
    }
    assert(n != "rtf"@) by {
        assert("heif"@.len() != "rtf"@.len());
    }
    assert(n != "image"@) by {
        assert("heif"@.len() != "image"@.len());
    }
    assert(n != "raw-image"@) by {
        assert("heif"@.len() != "raw-image"@.len());
    }
    assert(n != "png"@) by {
        assert("heif"@.len() != "png"@.len());
    }
    assert(n != "jpeg"@) by {
        assert("heif"@[0] != "jpeg"@[0]);
    }
    assert(n != "gif"@) by {
        assert("heif"@.len() != "gif"@.len());
    }
    assert(n != "tiff"@) by {
        assert("heif"@[0] != "tiff"@[0]);
    }
    assert(n != "svg"@) by {
        assert("heif"@.len() != "svg"@.len());
    }
    assert(n != "webp"@) by {
        assert("heif"@[0] != "webp"@[0]);
    }
    assert(n != "heic"@) by {
        assert("heif"@[3] != "heic"@[3]);
    }
    assert(parse_spec(n) == Some(SuperType::Heif));
}

proof fn lemma_display_parse_bmp()
    ensures
        parse_spec(normalized(name_spec(SuperType::Bmp))) == Some(SuperType::Bmp),
{
    reveal_strlit("bmp");
    reveal_strlit("text");
    reveal_strlit("plain-text");
    reveal_strlit("csv");
    reveal_strlit("json");
    reveal_strlit("xml");
    reveal_strlit("yaml");
    reveal_strlit("html");
    reveal_strlit("markdown");
    reveal_strlit("rtf");
    reveal_strlit("image");
    reveal_strlit("raw-image");
    reveal_strlit("png");
    reveal_strlit("jpeg");
    reveal_strlit("gif");
    reveal_strlit("tiff");
    reveal_strlit("svg");
    reveal_strlit("webp");
    reveal_strlit("heic");
    reveal_strlit("heif");
    assert(normalized(name_spec(SuperType::Bmp)) =~= "bmp"@);
    let n = normalized(name_spec(SuperType::Bmp));
    assert(n != "text"@) by {
        assert("bmp"@.len() != "text"@.len());
    }
    assert(n != "plain-text"@) by {
        assert("bmp"@.len() != "plain-text"@.len());
    }
    assert(n != "csv"@) by {
        assert("bmp"@[0] != "csv"@[0]);
    }
    assert(n != "json"@) by {
        assert("bmp"@.len() != "json"@.len());
    }
    assert(n != "xml"@) by {
        assert("bmp"@[0] != "xml"@[0]);
    }
    assert(n != "yaml"@) by {
        assert("bmp"@.len() != "yaml"@.len());
    }
    assert(n != "html"@) by {
        assert("bmp"@.len() != "html"@.len());
    }
    assert(n != "markdown"@) by {
        assert("bmp"@.len() != "markdown"@.len());
    }
    assert(n != "rtf"@) by {
        assert("bmp"@[0] != "rtf"@[0]);
    }
    assert(n != "image"@) by {
        assert("bmp"@.len() != "image"@.len());
    }
    assert(n != "raw-image"@) by {
        assert("bmp"@.len() != "raw-image"@.len());
    }
    assert(n != "png"@) by {
        assert("bmp"@[0] != "png"@[0]);
    }
    assert(n != "jpeg"@) by {
        assert("bmp"@.len() != "jpeg"@.len());
    }
    assert(n != "gif"@) by {
        assert("bmp"@[0] != "gif"@[0]);
    }
    assert(n != "tiff"@) by {
        assert("bmp"@.len() != "tiff"@.len());
    }
    assert(n != "svg"@) by {
        assert("bmp"@[0] != "svg"@[0]);
    }
    assert(n != "webp"@) by {
        assert("bmp"@.len() != "webp"@.len());
    }
    assert(n != "heic"@) by {
        assert("bmp"@.len() != "heic"@.len());
    }
    assert(n != "heif"@) by {
        assert("bmp"@.len() != "heif"@.len());
    }
    assert(parse_spec(n) == Some(SuperType::Bmp));
}

proof fn lemma_display_parse_audio()
    ensures
        parse_spec(normalized(name_spec(SuperType::Audio))) == Some(SuperType::Audio),
{
    reveal_strlit("audio");
    reveal_strlit("text");
    reveal_strlit("plain-text");
    reveal_strlit("csv");
    reveal_strlit("json");
    reveal_strlit("xml");
    reveal_strlit("yaml");
    reveal_strlit("html");
    reveal_strlit("markdown");
    reveal_strlit("rtf");
    reveal_strlit("image");
    reveal_strlit("raw-image");
    reveal_strlit("png");
    reveal_strlit("jpeg");
    reveal_strlit("gif");
    reveal_strlit("tiff");
    reveal_strlit("svg");
    reveal_strlit("webp");
    reveal_strlit("heic");
    reveal_strlit("heif");
    reveal_strlit("bmp");
    assert(normalized(name_spec(SuperType::Audio)) =~= "audio"@);
    let n = normalized(name_spec(SuperType::Audio));
    assert(n != "text"@) by {
        assert("audio"@.len() != "text"@.len());
    }
    assert(n != "plain-text"@) by {
        assert("audio"@.len() != "plain-text"@.len());
    }
    assert(n != "csv"@) by {
        assert("audio"@.len() != "csv"@.len());
    }
    assert(n != "json"@) by {
        assert("audio"@.len() != "json"@.len());
    }
    assert(n != "xml"@) by {
        assert("audio"@.len() != "xml"@.len());
    }
    assert(n != "yaml"@) by {
        assert("audio"@.len() != "yaml"@.len());
    }
    assert(n != "html"@) by {
        assert("audio"@.len() != "html"@.len());
    }
    assert(n != "markdown"@) by {
        assert("audio"@.len() != "markdown"@.len());
    }
    assert(n != "rtf"@) by {
        assert("audio"@.len() != "rtf"@.len());
    }
    assert(n != "image"@) by {
        assert("audio"@[0] != "image"@[0]);
    }
    assert(n != "raw-image"@) by {
        assert("audio"@.len() != "raw-image"@.len());
    }
    assert(n != "png"@) by {
        assert("audio"@.len() != "png"@.len());
    }
    assert(n != "jpeg"@) by {
        assert("audio"@.len() != "jpeg"@.len());
    }
    assert(n != "gif"@) by {
        assert("audio"@.len() != "gif"@.len());
    }
    assert(n != "tiff"@) by {
        assert("audio"@.len() != "tiff"@.len());
    }
    assert(n != "svg"@) by {
        assert("audio"@.len() != "svg"@.len());
    }
    assert(n != "webp"@) by {
        assert("audio"@.len() != "webp"@.len());
    }
    assert(n != "heic"@) by {
        assert("audio"@.len() != "heic"@.len());
    }
    assert(n != "heif"@) by {
        assert("audio"@.len() != "heif"@.len());
    }
    assert(n != "bmp"@) by {
        assert("audio"@.len() != "bmp"@.len());
    }
    assert(parse_spec(n) == Some(SuperType::Audio));
}

proof fn lemma_display_parse_mp3()
    ensures
        parse_spec(normalized(name_spec(SuperType::Mp3))) == Some(SuperType::Mp3),
{
    reveal_strlit("mp3");
    reveal_strlit("text");
    reveal_strlit("plain-text");
    reveal_strlit("csv");
    reveal_strlit("json");
    reveal_strlit("xml");
    reveal_strlit("yaml");
    reveal_strlit("html");
    reveal_strlit("markdown");
    reveal_strlit("rtf");
    reveal_strlit("image");
    reveal_strlit("raw-image");
    reveal_strlit("png");
    reveal_strlit("jpeg");
    reveal_strlit("gif");
    reveal_strlit("tiff");
    reveal_strlit("svg");
    reveal_strlit("webp");
    reveal_strlit("heic");
    reveal_strlit("heif");
    reveal_strlit("bmp");
    reveal_strlit("audio");
    assert(normalized(name_spec(SuperType::Mp3)) =~= "mp3"@);
    let n = normalized(name_spec(SuperType::Mp3));
    assert(n != "text"@) by {
        assert("mp3"@.len() != "text"@.len());
    }
    assert(n != "plain-text"@) by {
        assert("mp3"@.len() != "plain-text"@.len());
    }
    assert(n != "csv"@) by {
        assert("mp3"@[0] != "csv"@[0]);
    }
    assert(n != "json"@) by {
        assert("mp3"@.len() != "json"@.len());
    }
    assert(n != "xml"@) by {
        assert("mp3"@[0] != "xml"@[0]);
    }
    assert(n != "yaml"@) by {
        assert("mp3"@.len() != "yaml"@.len());
    }
    assert(n != "html"@) by {
        assert("mp3"@.len() != "html"@.len());
    }
    assert(n != "markdown"@) by {
        assert("mp3"@.len() != "markdown"@.len());
    }
    assert(n != "rtf"@) by {
        assert("mp3"@[0] != "rtf"@[0]);
    }
    assert(n != "image"@) by {
        assert("mp3"@.len() != "image"@.len());
    }
    assert(n != "raw-image"@) by {
        assert("mp3"@.len() != "raw-image"@.len());
    }
    assert(n != "png"@) by {
        assert("mp3"@[0] != "png"@[0]);
    }
    assert(n != "jpeg"@) by {
        assert("mp3"@.len() != "jpeg"@.len());
    }
    assert(n != "gif"@) by {
        assert("mp3"@[0] != "gif"@[0]);
    }
    assert(n != "tiff"@) by {
        assert("mp3"@.len() != "tiff"@.len());
    }
    assert(n != "svg"@) by {
        assert("mp3"@[0] != "svg"@[0]);
    }
    assert(n != "webp"@) by {
        assert("mp3"@.len() != "webp"@.len());
    }
    assert(n != "heic"@) by {
        assert("mp3"@.len() != "heic"@.len());
    }
    assert(n != "heif"@) by {
        assert("mp3"@.len() != "heif"@.len());
    }
    assert(n != "bmp"@) by {
        assert("mp3"@[0] != "bmp"@[0]);
    }
    assert(n != "audio"@) by {
        assert("mp3"@.len() != "audio"@.len());
    }
    assert(parse_spec(n) == Some(SuperType::Mp3));
}

proof fn lemma_display_parse_wav()
    ensures
        parse_spec(normalized(name_spec(SuperType::Wav))) == Some(SuperType::Wav),
{
    reveal_strlit("wav");
    reveal_strlit("text");
    reveal_strlit("plain-text");
    reveal_strlit("csv");
    reveal_strlit("json");
    reveal_strlit("xml");
    reveal_strlit("yaml");
    reveal_strlit("html");
    reveal_strlit("markdown");
    reveal_strlit("rtf");
    reveal_strlit("image");
    reveal_strlit("raw-image");
    reveal_strlit("png");
    reveal_strlit("jpeg");
    reveal_strlit("gif");
    reveal_strlit("tiff");
    reveal_strlit("svg");
    reveal_strlit("webp");
    reveal_strlit("heic");
    reveal_strlit("heif");
    reveal_strlit("bmp");
    reveal_strlit("audio");
    reveal_strlit("mp3");
    assert(normalized(name_spec(SuperType::Wav)) =~= "wav"@);
    let n = normalized(name_spec(SuperType::Wav));
    assert(n != "text"@) by {
        assert("wav"@.len() != "text"@.len());
    }
    assert(n != "plain-text"@) by {
        assert("wav"@.len() != "plain-text"@.len());
    }
    assert(n != "csv"@) by {
        assert("wav"@[0] != "csv"@[0]);
    }
    assert(n != "json"@) by {
        assert("wav"@.len() != "json"@.len());
    }
    assert(n != "xml"@) by {
        assert("wav"@[0] != "xml"@[0]);
    }
    assert(n != "yaml"@) by {
        assert("wav"@.len() != "yaml"@.len());
    }
    assert(n != "html"@) by {
        assert("wav"@.len() != "html"@.len());
    }
    assert(n != "markdown"@) by {
        assert("wav"@.len() != "markdown"@.len());
    }
    assert(n != "rtf"@) by {
        assert("wav"@[0] != "rtf"@[0]);
    }
    assert(n != "image"@) by {
        assert("wav"@.len() != "image"@.len());
    }
    assert(n != "raw-image"@) by {
        assert("wav"@.len() != "raw-image"@.len());
    }
    assert(n != "png"@) by {
        assert("wav"@[0] != "png"@[0]);
    }
    assert(n != "jpeg"@) by {
        assert("wav"@.len() != "jpeg"@.len());
    }
    assert(n != "gif"@) by {
        assert("wav"@[0] != "gif"@[0]);
    }
    assert(n != "tiff"@) by {
        assert("wav"@.len() != "tiff"@.len());
    }
    assert(n != "svg"@) by {
        assert("wav"@[0] != "svg"@[0]);
    }
    assert(n != "webp"@) by {
        assert("wav"@.len() != "webp"@.len());
    }
    assert(n != "heic"@) by {
        assert("wav"@.len() != "heic"@.len());
    }
    assert(n != "heif"@) by {
        assert("wav"@.len() != "heif"@.len());
    }
    assert(n != "bmp"@) by {
        assert("wav"@[0] != "bmp"@[0]);
    }
    assert(n != "audio"@) by {
        assert("wav"@.len() != "audio"@.len());
    }
    assert(n != "mp3"@) by {
        assert("wav"@[0] != "mp3"@[0]);
    }
    assert(parse_spec(n) == Some(SuperType::Wav));
}

proof fn lemma_display_parse_aiff()
    ensures
        parse_spec(normalized(name_spec(SuperType::Aiff))) == Some(SuperType::Aiff),
{
    reveal_strlit("aiff");
    reveal_strlit("text");
    reveal_strlit("plain-text");
    reveal_strlit("csv");
    reveal_strlit("json");
    reveal_strlit("xml");
    reveal_strlit("yaml");
    reveal_strlit("html");
    reveal_strlit("markdown");
    reveal_strlit("rtf");
    reveal_strlit("image");
    reveal_strlit("raw-image");
    reveal_strlit("png");
    reveal_strlit("jpeg");
    reveal_strlit("gif");
    reveal_strlit("tiff");
    reveal_strlit("svg");
    reveal_strlit("webp");
    reveal_strlit("heic");
    reveal_strlit("heif");
    reveal_strlit("bmp");
    reveal_strlit("audio");
    reveal_strlit("mp3");
    reveal_strlit("wav");
    assert(normalized(name_spec(SuperType::Aiff)) =~= "aiff"@);
    let n = normalized(name_spec(SuperType::Aiff));
    assert(n != "text"@) by {
        assert("aiff"@[0] != "text"@[0]);
    }
    assert(n != "plain-text"@) by {
        assert("aiff"@.len() != "plain-text"@.len());
    }
    assert(n != "csv"@) by {
        assert("aiff"@.len() != "csv"@.len());
    }
    assert(n != "json"@) by {
        assert("aiff"@[0] != "json"@[0]);
    }
    assert(n != "xml"@) by {
        assert("aiff"@.len() != "xml"@.len());
    }
    assert(n != "yaml"@) by {
        assert("aiff"@[0] != "yaml"@[0]);
    }
    assert(n != "html"@) by {
        assert("aiff"@[0] != "html"@[0]);
    }
    assert(n != "markdown"@) by {
        assert("aiff"@.len() != "markdown"@.len());
    }
    assert(n != "rtf"@) by {
        assert("aiff"@.len() != "rtf"@.len());
    }
    assert(n != "image"@) by {
        assert("aiff"@.len() != "image"@.len());
    }
    assert(n != "raw-image"@) by {
        assert("aiff"@.len() != "raw-image"@.len());
    }
    assert(n != "png"@) by {
        assert("aiff"@.len() != "png"@.len());
    }
    assert(n != "jpeg"@) by {
        assert("aiff"@[0] != "jpeg"@[0]);
    }
    assert(n != "gif"@) by {
        assert("aiff"@.len() != "gif"@.len());
    }
    assert(n != "tiff"@) by {
        assert("aiff"@[0] != "tiff"@[0]);
    }
    assert(n != "svg"@) by {
        assert("aiff"@.len() != "svg"@.len());
    }
    assert(n != "webp"@) by {
        assert("aiff"@[0] != "webp"@[0]);
    }
    assert(n != "heic"@) by {
        assert("aiff"@[0] != "heic"@[0]);
    }
    assert(n != "heif"@) by {
        assert("aiff"@[0] != "heif"@[0]);
    }
    assert(n != "bmp"@) by {
        assert("aiff"@.len() != "bmp"@.len());
    }
    assert(n != "audio"@) by {
        assert("aiff"@.len() != "audio"@.len());
    }
    assert(n != "mp3"@) by {
        assert("aiff"@.len() != "mp3"@.len());
    }
    assert(n != "wav"@) by {
        assert("aiff"@.len() != "wav"@.len());
    }
    assert(parse_spec(n) == Some(SuperType::Aiff));
}

proof fn lemma_display_parse_midi()
    ensures
        parse_spec(normalized(name_spec(SuperType::Midi))) == Some(SuperType::Midi),
{
    reveal_strlit("midi");
    reveal_strlit("text");
    reveal_strlit("plain-text");
    reveal_strlit("csv");
    reveal_strlit("json");
    reveal_strlit("xml");
    reveal_strlit("yaml");
    reveal_strlit("html");
    reveal_strlit("markdown");
    reveal_strlit("rtf");
    reveal_strlit("image");
    reveal_strlit("raw-image");
    reveal_strlit("png");
    reveal_strlit("jpeg");
    reveal_strlit("gif");
    reveal_strlit("tiff");
    reveal_strlit("svg");
    reveal_strlit("webp");
    reveal_strlit("heic");
    reveal_strlit("heif");
    reveal_strlit("bmp");
    reveal_strlit("audio");
    reveal_strlit("mp3");
    reveal_strlit("wav");
    reveal_strlit("aiff");
    assert(normalized(name_spec(SuperType::Midi)) =~= "midi"@);
    let n = normalized(name_spec(SuperType::Midi));
    assert(n != "text"@) by {
        assert("midi"@[0] != "text"@[0]);
    }
    assert(n != "plain-text"@) by {
        assert("midi"@.len() != "plain-text"@.len());
    }
    assert(n != "csv"@) by {
        assert("midi"@.len() != "csv"@.len());
    }
    assert(n != "json"@) by {
        assert("midi"@[0] != "json"@[0]);
    }
    assert(n != "xml"@) by {
        assert("midi"@.len() != "xml"@.len());
    }
    assert(n != "yaml"@) by {
        assert("midi"@[0] != "yaml"@[0]);
    }
    assert(n != "html"@) by {
        assert("midi"@[0] != "html"@[0]);
    }
    assert(n != "markdown"@) by {
        assert("midi"@.len() != "markdown"@.len());
    }
    assert(n != "rtf"@) by {
        assert("midi"@.len() != "rtf"@.len());
    }
    assert(n != "image"@) by {
        assert("midi"@.len() != "image"@.len());
    }
    assert(n != "raw-image"@) by {
        assert("midi"@.len() != "raw-image"@.len());
    }
    assert(n != "png"@) by {
        assert("midi"@.len() != "png"@.len());
    }
    assert(n != "jpeg"@) by {
        assert("midi"@[0] != "jpeg"@[0]);
    }
    assert(n != "gif"@) by {
        assert("midi"@.len() != "gif"@.len());
    }
    assert(n != "tiff"@) by {
        assert("midi"@[0] != "tiff"@[0]);
    }
    assert(n != "svg"@) by {
        assert("midi"@.len() != "svg"@.len());
    }
    assert(n != "webp"@) by {
        assert("midi"@[0] != "webp"@[0]);
    }
    assert(n != "heic"@) by {
        assert("midi"@[0] != "heic"@[0]);
    }
    assert(n != "heif"@) by {
        assert("midi"@[0] != "heif"@[0]);
    }
    assert(n != "bmp"@) by {
        assert("midi"@.len() != "bmp"@.len());
    }
    assert(n != "audio"@) by {
        assert("midi"@.len() != "audio"@.len());
    }
    assert(n != "mp3"@) by {
        assert("midi"@.len() != "mp3"@.len());
    }
    assert(n != "wav"@) by {
        assert("midi"@.len() != "wav"@.len());
    }
    assert(n != "aiff"@) by {
        assert("midi"@[0] != "aiff"@[0]);
    }
    assert(parse_spec(n) == Some(SuperType::Midi));
}

proof fn lemma_display_parse_mp4audio()
    ensures
        parse_spec(normalized(name_spec(SuperType::Mp4Audio))) == Some(SuperType::Mp4Audio),
{
    reveal_strlit("mp4-audio");
    reveal_strlit("text");
    reveal_strlit("plain-text");
    reveal_strlit("csv");
    reveal_strlit("json");
    reveal_strlit("xml");
    reveal_strlit("yaml");
    reveal_strlit("html");
    reveal_strlit("markdown");
    reveal_strlit("rtf");
    reveal_strlit("image");
    reveal_strlit("raw-image");
    reveal_strlit("png");
    reveal_strlit("jpeg");
    reveal_strlit("gif");
    reveal_strlit("tiff");
    reveal_strlit("svg");
    reveal_strlit("webp");
    reveal_strlit("heic");
    reveal_strlit("heif");
    reveal_strlit("bmp");
    reveal_strlit("audio");
    reveal_strlit("mp3");
    reveal_strlit("wav");
    reveal_strlit("aiff");
    reveal_strlit("midi");
    assert(normalized(name_spec(SuperType::Mp4Audio)) =~= "mp4-audio"@);
    let n = normalized(name_spec(SuperType::Mp4Audio));
    assert(n != "text"@) by {
        assert("mp4-audio"@.len() != "text"@.len());
    }
    assert(n != "plain-text"@) by {
        assert("mp4-audio"@.len() != "plain-text"@.len());
    }
    assert(n != "csv"@) by {
        assert("mp4-audio"@.len() != "csv"@.len());
    }
    assert(n != "json"@) by {
        assert("mp4-audio"@.len() != "json"@.len());
    }
    assert(n != "xml"@) by {
        assert("mp4-audio"@.len() != "xml"@.len());
    }
    assert(n != "yaml"@) by {
        assert("mp4-audio"@.len() != "yaml"@.len());
    }
    assert(n != "html"@) by {
        assert("mp4-audio"@.len() != "html"@.len());
    }
    assert(n != "markdown"@) by {
        assert("mp4-audio"@.len() != "markdown"@.len());
    }
    assert(n != "rtf"@) by {
        assert("mp4-audio"@.len() != "rtf"@.len());
    }
    assert(n != "image"@) by {
        assert("mp4-audio"@.len() != "image"@.len());
    }
    assert(n != "raw-image"@) by {
        assert("mp4-audio"@[0] != "raw-image"@[0]);
    }
    assert(n != "png"@) by {
        assert("mp4-audio"@.len() != "png"@.len());
    }
    assert(n != "jpeg"@) by {
        assert("mp4-audio"@.len() != "jpeg"@.len());
    }
    assert(n != "gif"@) by {
        assert("mp4-audio"@.len() != "gif"@.len());
    }
    assert(n != "tiff"@) by {
        assert("mp4-audio"@.len() != "tiff"@.len());
    }
    assert(n != "svg"@) by {
        assert("mp4-audio"@.len() != "svg"@.len());
    }
    assert(n != "webp"@) by {
        assert("mp4-audio"@.len() != "webp"@.len());
    }
    assert(n != "heic"@) by {
        assert("mp4-audio"@.len() != "heic"@.len());
    }
    assert(n != "heif"@) by {
        assert("mp4-audio"@.len() != "heif"@.len());
    }
    assert(n != "bmp"@) by {
        assert("mp4-audio"@.len() != "bmp"@.len());
    }
    assert(n != "audio"@) by {
        assert("mp4-audio"@.len() != "audio"@.len());
    }
    assert(n != "mp3"@) by {
        assert("mp4-audio"@.len() != "mp3"@.len());
    }
    assert(n != "wav"@) by {
        assert("mp4-audio"@.len() != "wav"@.len());
    }
    assert(n != "aiff"@) by {
        assert("mp4-audio"@.len() != "aiff"@.len());
    }
    assert(n != "midi"@) by {
        assert("mp4-audio"@.len() != "midi"@.len());
    }
    assert(parse_spec(n) == Some(SuperType::Mp4Audio));
}

proof fn lemma_display_parse_appleprotectedmp4audio()
    ensures
        parse_spec(normalized(name_spec(SuperType::AppleProtectedMp4Audio))) == Some(SuperType::AppleProtectedMp4Audio),
{
    reveal_strlit("apple-protected-mp4-audio");
    reveal_strlit("text");
    reveal_strlit("plain-text");
    reveal_strlit("csv");
    reveal_strlit("json");
    reveal_strlit("xml");
    reveal_strlit("yaml");
    reveal_strlit("html");
    reveal_strlit("markdown");
    reveal_strlit("rtf");
    reveal_strlit("image");
    reveal_strlit("raw-image");
    reveal_strlit("png");
    reveal_strlit("jpeg");
    reveal_strlit("gif");
    reveal_strlit("tiff");
    reveal_strlit("svg");
    reveal_strlit("webp");
    reveal_strlit("heic");
    reveal_strlit("heif");
    reveal_strlit("bmp");
    reveal_strlit("audio");
    reveal_strlit("mp3");
    reveal_strlit("wav");
    reveal_strlit("aiff");
    reveal_strlit("midi");
    reveal_strlit("mp4-audio");
    assert(normalized(name_spec(SuperType::AppleProtectedMp4Audio)) =~= "apple-protected-mp4-audio"@);
    let n = normalized(name_spec(SuperType::AppleProtectedMp4Audio));
    assert(n != "text"@) by {
        assert("apple-protected-mp4-audio"@.len() != "text"@.len());
    }
    assert(n != "plain-text"@) by {
        assert("apple-protected-mp4-audio"@.len() != "plain-text"@.len());
    }
    assert(n != "csv"@) by {
        assert("apple-protected-mp4-audio"@.len() != "csv"@.len());
    }
    assert(n != "json"@) by {
        assert("apple-protected-mp4-audio"@.len() != "json"@.len());
    }
    assert(n != "xml"@) by {
        assert("apple-protected-mp4-audio"@.len() != "xml"@.len());
    }
    assert(n != "yaml"@) by {
        assert("apple-protected-mp4-audio"@.len() != "yaml"@.len());
    }
    assert(n != "html"@) by {
        assert("apple-protected-mp4-audio"@.len() != "html"@.len());
    }
    assert(n != "markdown"@) by {
        assert("apple-protected-mp4-audio"@.len() != "markdown"@.len());
    }
    assert(n != "rtf"@) by {
        assert("apple-protected-mp4-audio"@.len() != "rtf"@.len());
    }
    assert(n != "image"@) by {
        assert("apple-protected-mp4-audio"@.len() != "image"@.len());
    }
    assert(n != "raw-image"@) by {
        assert("apple-protected-mp4-audio"@.len() != "raw-image"@.len());
    }
    assert(n != "png"@) by {
        assert("apple-protected-mp4-audio"@.len() != "png"@.len());
    }
    assert(n != "jpeg"@) by {
        assert("apple-protected-mp4-audio"@.len() != "jpeg"@.len());
    }
    assert(n != "gif"@) by {
        assert("apple-protected-mp4-audio"@.len() != "gif"@.len());
    }
    assert(n != "tiff"@) by {
        assert("apple-protected-mp4-audio"@.len() != "tiff"@.len());
    }
    assert(n != "svg"@) by {
        assert("apple-protected-mp4-audio"@.len() != "svg"@.len());
    }
    assert(n != "webp"@) by {
        assert("apple-protected-mp4-audio"@.len() != "webp"@.len());
    }
    assert(n != "heic"@) by {
        assert("apple-protected-mp4-audio"@.len() != "heic"@.len());
    }
    assert(n != "heif"@) by {
        assert("apple-protected-mp4-audio"@.len() != "heif"@.len());
    }
    assert(n != "bmp"@) by {
        assert("apple-protected-mp4-audio"@.len() != "bmp"@.len());
    }
    assert(n != "audio"@) by {
        assert("apple-protected-mp4-audio"@.len() != "audio"@.len());
    }
    assert(n != "mp3"@) by {
        assert("apple-protected-mp4-audio"@.len() != "mp3"@.len());
    }
    assert(n != "wav"@) by {
        assert("apple-protected-mp4-audio"@.len() != "wav"@.len());
    }
    assert(n != "aiff"@) by {
        assert("apple-protected-mp4-audio"@.len() != "aiff"@.len());
    }
    assert(n != "midi"@) by {
        assert("apple-protected-mp4-audio"@.len() != "midi"@.len());
    }
    assert(n != "mp4-audio"@) by {
        assert("apple-protected-mp4-audio"@.len() != "mp4-audio"@.len());
    }
    assert(parse_spec(n) == Some(SuperType::AppleProtectedMp4Audio));
}

proof fn lemma_display_parse_flac()
    ensures
        parse_spec(normalized(name_spec(SuperType::Flac))) == Some(SuperType::Flac),
{
    reveal_strlit("flac");
    reveal_strlit("text");
    reveal_strlit("plain-text");
    reveal_strlit("csv");
    reveal_strlit("json");
    reveal_strlit("xml");
    reveal_strlit("yaml");
    reveal_strlit("html");
    reveal_strlit("markdown");
    reveal_strlit("rtf");
    reveal_strlit("image");
    reveal_strlit("raw-image");
    reveal_strlit("png");
    reveal_strlit("jpeg");
    reveal_strlit("gif");
    reveal_strlit("tiff");
    reveal_strlit("svg");
    reveal_strlit("webp");
    reveal_strlit("heic");
    reveal_strlit("heif");
    reveal_strlit("bmp");
    reveal_strlit("audio");
    reveal_strlit("mp3");
    reveal_strlit("wav");
    reveal_strlit("aiff");
    reveal_strlit("midi");
    reveal_strlit("mp4-audio");
    reveal_strlit("apple-protected-mp4-audio");
    assert(normalized(name_spec(SuperType::Flac)) =~= "flac"@);
    let n = normalized(name_spec(SuperType::Flac));
    assert(n != "text"@) by {
        assert("flac"@[0] != "text"@[0]);
    }
    assert(n != "plain-text"@) by {
        assert("flac"@.len() != "plain-text"@.len());
    }
    assert(n != "csv"@) by {
        assert("flac"@.len() != "csv"@.len());
    }
    assert(n != "json"@) by {
        assert("flac"@[0] != "json"@[0]);
    }
    assert(n != "xml"@) by {
        assert("flac"@.len() != "xml"@.len());
    }
    assert(n != "yaml"@) by {
        assert("flac"@[0] != "yaml"@[0]);
    }
    assert(n != "html"@) by {
        assert("flac"@[0] != "html"@[0]);
    }
    assert(n != "markdown"@) by {
        assert("flac"@.len() != "markdown"@.len());
    }
    assert(n != "rtf"@) by {
        assert("flac"@.len() != "rtf"@.len());
    }
    assert(n != "image"@) by {
        assert("flac"@.len() != "image"@.len());
    }
    assert(n != "raw-image"@) by {
        assert("flac"@.len() != "raw-image"@.len());
    }
    assert(n != "png"@) by {
        assert("flac"@.len() != "png"@.len());
    }
    assert(n != "jpeg"@) by {
        assert("flac"@[0] != "jpeg"@[0]);
    }
    assert(n != "gif"@) by {
        assert("flac"@.len() != "gif"@.len());
    }
    assert(n != "tiff"@) by {
        assert("flac"@[0] != "tiff"@[0]);
    }
    assert(n != "svg"@) by {
        assert("flac"@.len() != "svg"@.len());
    }
    assert(n != "webp"@) by {
        assert("flac"@[0] != "webp"@[0]);
    }
    assert(n != "heic"@) by {
        assert("flac"@[0] != "heic"@[0]);
    }
    assert(n != "heif"@) by {
        assert("flac"@[0] != "heif"@[0]);
    }
    assert(n != "bmp"@) by {
        assert("flac"@.len() != "bmp"@.len());
    }
    assert(n != "audio"@) by {
        assert("flac"@.len() != "audio"@.len());
    }
    assert(n != "mp3"@) by {
        assert("flac"@.len() != "mp3"@.len());
    }
    assert(n != "wav"@) by {
        assert("flac"@.len() != "wav"@.len());
    }
    assert(n != "aiff"@) by {
        assert("flac"@[0] != "aiff"@[0]);
    }
    assert(n != "midi"@) by {
        assert("flac"@[0] != "midi"@[0]);
    }
    assert(n != "mp4-audio"@) by {
        assert("flac"@.len() != "mp4-audio"@.len());
    }
    assert(n != "apple-protected-mp4-audio"@) by {
        assert("flac"@.len() != "apple-protected-mp4-audio"@.len());
    }
    assert(parse_spec(n) == Some(SuperType::Flac));
}

proof fn lemma_display_parse_oggaudio()
    ensures
        parse_spec(normalized(name_spec(SuperType::OggAudio))) == Some(SuperType::OggAudio),
{
    reveal_strlit("ogg-audio");
    reveal_strlit("text");
    reveal_strlit("plain-text");
    reveal_strlit("csv");
    reveal_strlit("json");
    reveal_strlit("xml");
    reveal_strlit("yaml");
    reveal_strlit("html");
    reveal_strlit("markdown");
    reveal_strlit("rtf");
    reveal_strlit("image");
    reveal_strlit("raw-image");
    reveal_strlit("png");
    reveal_strlit("jpeg");
    reveal_strlit("gif");
    reveal_strlit("tiff");
    reveal_strlit("svg");
    reveal_strlit("webp");
    reveal_strlit("heic");
    reveal_strlit("heif");
    reveal_strlit("bmp");
    reveal_strlit("audio");
    reveal_strlit("mp3");
    reveal_strlit("wav");
    reveal_strlit("aiff");
    reveal_strlit("midi");
    reveal_strlit("mp4-audio");
    reveal_strlit("apple-protected-mp4-audio");
    reveal_strlit("flac");
    assert(normalized(name_spec(SuperType::OggAudio)) =~= "ogg-audio"@);
    let n = normalized(name_spec(SuperType::OggAudio));
    assert(n != "text"@) by {
        assert("ogg-audio"@.len() != "text"@.len());
    }
    assert(n != "plain-text"@) by {
        assert("ogg-audio"@.len() != "plain-text"@.len());
    }
    assert(n != "csv"@) by {
        assert("ogg-audio"@.len() != "csv"@.len());
    }
    assert(n != "json"@) by {
        assert("ogg-audio"@.len() != "json"@.len());
    }
    assert(n != "xml"@) by {
        assert("ogg-audio"@.len() != "xml"@.len());
    }
    assert(n != "yaml"@) by {
        assert("ogg-audio"@.len() != "yaml"@.len());
    }
    assert(n != "html"@) by {
        assert("ogg-audio"@.len() != "html"@.len());
    }
    assert(n != "markdown"@) by {
        assert("ogg-audio"@.len() != "markdown"@.len());
    }
    assert(n != "rtf"@) by {
        assert("ogg-audio"@.len() != "rtf"@.len());
    }
    assert(n != "image"@) by {
        assert("ogg-audio"@.len() != "image"@.len());
    }
    assert(n != "raw-image"@) by {
        assert("ogg-audio"@[0] != "raw-image"@[0]);
    }
    assert(n != "png"@) by {
        assert("ogg-audio"@.len() != "png"@.len());
    }
    assert(n != "jpeg"@) by {
        assert("ogg-audio"@.len() != "jpeg"@.len());
    }
    assert(n != "gif"@) by {
        assert("ogg-audio"@.len() != "gif"@.len());
    }
    assert(n != "tiff"@) by {
        assert("ogg-audio"@.len() != "tiff"@.len());
    }
    assert(n != "svg"@) by {
        assert("ogg-audio"@.len() != "svg"@.len());
    }
    assert(n != "webp"@) by {
        assert("ogg-audio"@.len() != "webp"@.len());
    }
    assert(n != "heic"@) by {
        assert("ogg-audio"@.len() != "heic"@.len());
    }
    assert(n != "heif"@) by {
        assert("ogg-audio"@.len() != "heif"@.len());
    }
    assert(n != "bmp"@) by {
        assert("ogg-audio"@.len() != "bmp"@.len());
    }
    assert(n != "audio"@) by {
        assert("ogg-audio"@.len() != "audio"@.len());
    }
    assert(n != "mp3"@) by {
        assert("ogg-audio"@.len() != "mp3"@.len());
    }
    assert(n != "wav"@) by {
        assert("ogg-audio"@.len() != "wav"@.len());
    }
    assert(n != "aiff"@) by {
        assert("ogg-audio"@.len() != "aiff"@.len());
    }
    assert(n != "midi"@) by {
        assert("ogg-audio"@.len() != "midi"@.len());
    }
    assert(n != "mp4-audio"@) by {
        assert("ogg-audio"@[0] != "mp4-audio"@[0]);
    }
    assert(n != "apple-protected-mp4-audio"@) by {
        assert("ogg-audio"@.len() != "apple-protected-mp4-audio"@.len());
    }
    assert(n != "flac"@) by {
        assert("ogg-audio"@.len() != "flac"@.len());
    }
    assert(parse_spec(n) == Some(SuperType::OggAudio));
}

proof fn lemma_display_parse_ac3audio()
    ensures
        parse_spec(normalized(name_spec(SuperType::Ac3Audio))) == Some(SuperType::Ac3Audio),
{
    reveal_strlit("ac3-audio");
    reveal_strlit("text");
    reveal_strlit("plain-text");
    reveal_strlit("csv");
    reveal_strlit("json");
    reveal_strlit("xml");
    reveal_strlit("yaml");
    reveal_strlit("html");
    reveal_strlit("markdown");
    reveal_strlit("rtf");
    reveal_strlit("image");
    reveal_strlit("raw-image");
    reveal_strlit("png");
    reveal_strlit("jpeg");
    reveal_strlit("gif");
    reveal_strlit("tiff");
    reveal_strlit("svg");
    reveal_strlit("webp");
    reveal_strlit("heic");
    reveal_strlit("heif");
    reveal_strlit("bmp");
    reveal_strlit("audio");
    reveal_strlit("mp3");
    reveal_strlit("wav");
    reveal_strlit("aiff");
    reveal_strlit("midi");
    reveal_strlit("mp4-audio");
    reveal_strlit("apple-protected-mp4-audio");
    reveal_strlit("flac");
    reveal_strlit("ogg-audio");
    assert(normalized(name_spec(SuperType::Ac3Audio)) =~= "ac3-audio"@);
    let n = normalized(name_spec(SuperType::Ac3Audio));
    assert(n != "text"@) by {
        assert("ac3-audio"@.len() != "text"@.len());
    }
    assert(n != "plain-text"@) by {
        assert("ac3-audio"@.len() != "plain-text"@.len());
    }
    assert(n != "csv"@) by {
        assert("ac3-audio"@.len() != "csv"@.len());
    }
    assert(n != "json"@) by {
        assert("ac3-audio"@.len() != "json"@.len());
    }
    assert(n != "xml"@) by {
        assert("ac3-audio"@.len() != "xml"@.len());
    }
    assert(n != "yaml"@) by {
        assert("ac3-audio"@.len() != "yaml"@.len());
    }
    assert(n != "html"@) by {
        assert("ac3-audio"@.len() != "html"@.len());
    }
    assert(n != "markdown"@) by {
        assert("ac3-audio"@.len() != "markdown"@.len());
    }
    assert(n != "rtf"@) by {
        assert("ac3-audio"@.len() != "rtf"@.len());
    }
    assert(n != "image"@) by {
        assert("ac3-audio"@.len() != "image"@.len());
    }
    assert(n != "raw-image"@) by {
        assert("ac3-audio"@[0] != "raw-image"@[0]);
    }
    assert(n != "png"@) by {
        assert("ac3-audio"@.len() != "png"@.len());
    }
    assert(n != "jpeg"@) by {
        assert("ac3-audio"@.len() != "jpeg"@.len());
    }
    assert(n != "gif"@) by {
        assert("ac3-audio"@.len() != "gif"@.len());
    }
    assert(n != "tiff"@) by {
        assert("ac3-audio"@.len() != "tiff"@.len());
    }
    assert(n != "svg"@) by {
        assert("ac3-audio"@.len() != "svg"@.len());
    }
    assert(n != "webp"@) by {
        assert("ac3-audio"@.len() != "webp"@.len());
    }
    assert(n != "heic"@) by {
        assert("ac3-audio"@.len() != "heic"@.len());
    }
    assert(n != "heif"@) by {
        assert("ac3-audio"@.len() != "heif"@.len());
    }
    assert(n != "bmp"@) by {
        assert("ac3-audio"@.len() != "bmp"@.len());
    }
    assert(n != "audio"@) by {
        assert("ac3-audio"@.len() != "audio"@.len());
    }
    assert(n != "mp3"@) by {
        assert("ac3-audio"@.len() != "mp3"@.len());
    }
    assert(n != "wav"@) by {
        assert("ac3-audio"@.len() != "wav"@.len());
    }
    assert(n != "aiff"@) by {
        assert("ac3-audio"@.len() != "aiff"@.len());
    }
    assert(n != "midi"@) by {
        assert("ac3-audio"@.len() != "midi"@.len());
    }
    assert(n != "mp4-audio"@) by {
        assert("ac3-audio"@[0] != "mp4-audio"@[0]);
    }
    assert(n != "apple-protected-mp4-audio"@) by {
        assert("ac3-audio"@.len() != "apple-protected-mp4-audio"@.len());
    }
    assert(n != "flac"@) by {
        assert("ac3-audio"@.len() != "flac"@.len());
    }
    assert(n != "ogg-audio"@) by {
        assert("ac3-audio"@[0] != "ogg-audio"@[0]);
    }
    assert(parse_spec(n) == Some(SuperType::Ac3Audio));
}

proof fn lemma_display_parse_aacaudio()
    ensures
        parse_spec(normalized(name_spec(SuperType::AacAudio))) == Some(SuperType::AacAudio),
{
    reveal_strlit("aac-audio");
    reveal_strlit("text");
    reveal_strlit("plain-text");
    reveal_strlit("csv");
    reveal_strlit("json");
    reveal_strlit("xml");
    reveal_strlit("yaml");
    reveal_strlit("html");
    reveal_strlit("markdown");
    reveal_strlit("rtf");
    reveal_strlit("image");
    reveal_strlit("raw-image");
    reveal_strlit("png");
    reveal_strlit("jpeg");
    reveal_strlit("gif");
    reveal_strlit("tiff");
    reveal_strlit("svg");
    reveal_strlit("webp");
    reveal_strlit("heic");
    reveal_strlit("heif");
    reveal_strlit("bmp");
    reveal_strlit("audio");
    reveal_strlit("mp3");
    reveal_strlit("wav");
    reveal_strlit("aiff");
    reveal_strlit("midi");
    reveal_strlit("mp4-audio");
    reveal_strlit("apple-protected-mp4-audio");
    reveal_strlit("flac");
    reveal_strlit("ogg-audio");
    reveal_strlit("ac3-audio");
    assert(normalized(name_spec(SuperType::AacAudio)) =~= "aac-audio"@);
    let n = normalized(name_spec(SuperType::AacAudio));
    assert(n != "text"@) by {
        assert("aac-audio"@.len() != "text"@.len());
    }
    assert(n != "plain-text"@) by {
        assert("aac-audio"@.len() != "plain-text"@.len());
    }
    assert(n != "csv"@) by {
        assert("aac-audio"@.len() != "csv"@.len());
    }
    assert(n != "json"@) by {
        assert("aac-audio"@.len() != "json"@.len());
    }
    assert(n != "xml"@) by {
        assert("aac-audio"@.len() != "xml"@.len());
    }
    assert(n != "yaml"@) by {
        assert("aac-audio"@.len() != "yaml"@.len());
    }
    assert(n != "html"@) by {
        assert("aac-audio"@.len() != "html"@.len());
    }
    assert(n != "markdown"@) by {
        assert("aac-audio"@.len() != "markdown"@.len());
    }
    assert(n != "rtf"@) by {
        assert("aac-audio"@.len() != "rtf"@.len());
    }
    assert(n != "image"@) by {
        assert("aac-audio"@.len() != "image"@.len());
    }
    assert(n != "raw-image"@) by {
        assert("aac-audio"@[0] != "raw-image"@[0]);
    }
    assert(n != "png"@) by {
        assert("aac-audio"@.len() != "png"@.len());
    }
    assert(n != "jpeg"@) by {
        assert("aac-audio"@.len() != "jpeg"@.len());
    }
    assert(n != "gif"@) by {
        assert("aac-audio"@.len() != "gif"@.len());
    }
    assert(n != "tiff"@) by {
        assert("aac-audio"@.len() != "tiff"@.len());
    }
    assert(n != "svg"@) by {
        assert("aac-audio"@.len() != "svg"@.len());
    }
    assert(n != "webp"@) by {
        assert("aac-audio"@.len() != "webp"@.len());
    }
    assert(n != "heic"@) by {
        assert("aac-audio"@.len() != "heic"@.len());
    }
    assert(n != "heif"@) by {
        assert("aac-audio"@.len() != "heif"@.len());
    }
    assert(n != "bmp"@) by {
        assert("aac-audio"@.len() != "bmp"@.len());
    }
    assert(n != "audio"@) by {
        assert("aac-audio"@.len() != "audio"@.len());
    }
    assert(n != "mp3"@) by {
        assert("aac-audio"@.len() != "mp3"@.len());
    }
    assert(n != "wav"@) by {
        assert("aac-audio"@.len() != "wav"@.len());
    }
    assert(n != "aiff"@) by {
        assert("aac-audio"@.len() != "aiff"@.len());
    }
    assert(n != "midi"@) by {
        assert("aac-audio"@.len() != "midi"@.len());
    }
    assert(n != "mp4-audio"@) by {
        assert("aac-audio"@[0] != "mp4-audio"@[0]);
    }
    assert(n != "apple-protected-mp4-audio"@) by {
        assert("aac-audio"@.len() != "apple-protected-mp4-audio"@.len());
    }
    assert(n != "flac"@) by {
        assert("aac-audio"@.len() != "flac"@.len());
    }
    assert(n != "ogg-audio"@) by {
        assert("aac-audio"@[0] != "ogg-audio"@[0]);
    }
    assert(n != "ac3-audio"@) by {
        assert("aac-audio"@[1] != "ac3-audio"@[1]);
    }
    assert(parse_spec(n) == Some(SuperType::AacAudio));
}

proof fn lemma_display_parse_video()
    ensures
        parse_spec(normalized(name_spec(SuperType::Video))) == Some(SuperType::Video),
{
    reveal_strlit("video");
    reveal_strlit("text");
    reveal_strlit("plain-text");
    reveal_strlit("csv");
    reveal_strlit("json");
    reveal_strlit("xml");
    reveal_strlit("yaml");
    reveal_strlit("html");
    reveal_strlit("markdown");
    reveal_strlit("rtf");
    reveal_strlit("image");
    reveal_strlit("raw-image");
    reveal_strlit("png");
    reveal_strlit("jpeg");
    reveal_strlit("gif");
    reveal_strlit("tiff");
    reveal_strlit("svg");
    reveal_strlit("webp");
    reveal_strlit("heic");
    reveal_strlit("heif");
    reveal_strlit("bmp");
    reveal_strlit("audio");
    reveal_strlit("mp3");
    reveal_strlit("wav");
    reveal_strlit("aiff");
    reveal_strlit("midi");
    reveal_strlit("mp4-audio");
    reveal_strlit("apple-protected-mp4-audio");
    reveal_strlit("flac");
    reveal_strlit("ogg-audio");
    reveal_strlit("ac3-audio");
    reveal_strlit("aac-audio");
    assert(normalized(name_spec(SuperType::Video)) =~= "video"@);
    let n = normalized(name_spec(SuperType::Video));
    assert(n != "text"@) by {
        assert("video"@.len() != "text"@.len());
    }
    assert(n != "plain-text"@) by {
        assert("video"@.len() != "plain-text"@.len());
    }
    assert(n != "csv"@) by {
        assert("video"@.len() != "csv"@.len());
    }
    assert(n != "json"@) by {
        assert("video"@.len() != "json"@.len());
    }
    assert(n != "xml"@) by {
        assert("video"@.len() != "xml"@.len());
    }
    assert(n != "yaml"@) by {
        assert("video"@.len() != "yaml"@.len());
    }
    assert(n != "html"@) by {
        assert("video"@.len() != "html"@.len());
    }
    assert(n != "markdown"@) by {
        assert("video"@.len() != "markdown"@.len());
    }
    assert(n != "rtf"@) by {
        assert("video"@.len() != "rtf"@.len());
    }
    assert(n != "image"@) by {
        assert("video"@[0] != "image"@[0]);
    }
    assert(n != "raw-image"@) by {
        assert("video"@.len() != "raw-image"@.len());
    }
    assert(n != "png"@) by {
        assert("video"@.len() != "png"@.len());
    }
    assert(n != "jpeg"@) by {
        assert("video"@.len() != "jpeg"@.len());
    }
    assert(n != "gif"@) by {
        assert("video"@.len() != "gif"@.len());
    }
    assert(n != "tiff"@) by {
        assert("video"@.len() != "tiff"@.len());
    }
    assert(n != "svg"@) by {
        assert("video"@.len() != "svg"@.len());
    }
    assert(n != "webp"@) by {
        assert("video"@.len() != "webp"@.len());
    }
    assert(n != "heic"@) by {
        assert("video"@.len() != "heic"@.len());
    }
    assert(n != "heif"@) by {
        assert("video"@.len() != "heif"@.len());
    }
    assert(n != "bmp"@) by {
        assert("video"@.len() != "bmp"@.len());
    }
    assert(n != "audio"@) by {
        assert("video"@[0] != "audio"@[0]);
    }
    assert(n != "mp3"@) by {
        assert("video"@.len() != "mp3"@.len());
    }
    assert(n != "wav"@) by {
        assert("video"@.len() != "wav"@.len());
    }
    assert(n != "aiff"@) by {
        assert("video"@.len() != "aiff"@.len());
    }
    assert(n != "midi"@) by {
        assert("video"@.len() != "midi"@.len());
    }
    assert(n != "mp4-audio"@) by {
        assert("video"@.len() != "mp4-audio"@.len());
    }
    assert(n != "apple-protected-mp4-audio"@) by {
        assert("video"@.len() != "apple-protected-mp4-audio"@.len());
    }
    assert(n != "flac"@) by {
        assert("video"@.len() != "flac"@.len());
    }
    assert(n != "ogg-audio"@) by {
        assert("video"@.len() != "ogg-audio"@.len());
    }
    assert(n != "ac3-audio"@) by {
        assert("video"@.len() != "ac3-audio"@.len());
    }
    assert(n != "aac-audio"@) by {
        assert("video"@.len() != "aac-audio"@.len());
    }
    assert(parse_spec(n) == Some(SuperType::Video));
}

proof fn lemma_display_parse_mpeg2transportstream()
    ensures
        parse_spec(normalized(name_spec(SuperType::Mpeg2TransportStream))) == Some(SuperType::Mpeg2TransportStream),
{
    reveal_strlit("mpeg2-transport-stream");
    reveal_strlit("text");
    reveal_strlit("plain-text");
    reveal_strlit("csv");
    reveal_strlit("json");
    reveal_strlit("xml");
    reveal_strlit("yaml");
    reveal_strlit("html");
    reveal_strlit("markdown");
    reveal_strlit("rtf");
    reveal_strlit("image");
    reveal_strlit("raw-image");
    reveal_strlit("png");
    reveal_strlit("jpeg");
    reveal_strlit("gif");
    reveal_strlit("tiff");
    reveal_strlit("svg");
    reveal_strlit("webp");
    reveal_strlit("heic");
    reveal_strlit("heif");
    reveal_strlit("bmp");
    reveal_strlit("audio");
    reveal_strlit("mp3");
    reveal_strlit("wav");
    reveal_strlit("aiff");
    reveal_strlit("midi");
    reveal_strlit("mp4-audio");
    reveal_strlit("apple-protected-mp4-audio");
    reveal_strlit("flac");
    reveal_strlit("ogg-audio");
    reveal_strlit("ac3-audio");
    reveal_strlit("aac-audio");
    reveal_strlit("video");
    assert(normalized(name_spec(SuperType::Mpeg2TransportStream)) =~= "mpeg2-transport-stream"@);
    let n = normalized(name_spec(SuperType::Mpeg2TransportStream));
    assert(n != "text"@) by {
        assert("mpeg2-transport-stream"@.len() != "text"@.len());
    }
    assert(n != "plain-text"@) by {
        assert("mpeg2-transport-stream"@.len() != "plain-text"@.len());
    }
    assert(n != "csv"@) by {
        assert("mpeg2-transport-stream"@.len() != "csv"@.len());
    }
    assert(n != "json"@) by {
        assert("mpeg2-transport-stream"@.len() != "json"@.len());
    }
    assert(n != "xml"@) by {
        assert("mpeg2-transport-stream"@.len() != "xml"@.len());
    }
    assert(n != "yaml"@) by {
        assert("mpeg2-transport-stream"@.len() != "yaml"@.len());
    }
    assert(n != "html"@) by {
        assert("mpeg2-transport-stream"@.len() != "html"@.len());
    }
    assert(n != "markdown"@) by {
        assert("mpeg2-transport-stream"@.len() != "markdown"@.len());
    }
    assert(n != "rtf"@) by {
        assert("mpeg2-transport-stream"@.len() != "rtf"@.len());
    }
    assert(n != "image"@) by {
        assert("mpeg2-transport-stream"@.len() != "image"@.len());
    }
    assert(n != "raw-image"@) by {
        assert("mpeg2-transport-stream"@.len() != "raw-image"@.len());
    }
    assert(n != "png"@) by {
        assert("mpeg2-transport-stream"@.len() != "png"@.len());
    }
    assert(n != "jpeg"@) by {
        assert("mpeg2-transport-stream"@.len() != "jpeg"@.len());
    }
    assert(n != "gif"@) by {
        assert("mpeg2-transport-stream"@.len() != "gif"@.len());
    }
    assert(n != "tiff"@) by {
        assert("mpeg2-transport-stream"@.len() != "tiff"@.len());
    }
    assert(n != "svg"@) by {
        assert("mpeg2-transport-stream"@.len() != "svg"@.len());
    }
    assert(n != "webp"@) by {
        assert("mpeg2-transport-stream"@.len() != "webp"@.len());
    }
    assert(n != "heic"@) by {
        assert("mpeg2-transport-stream"@.len() != "heic"@.len());
    }
    assert(n != "heif"@) by {
        assert("mpeg2-transport-stream"@.len() != "heif"@.len());
    }
    assert(n != "bmp"@) by {
        assert("mpeg2-transport-stream"@.len() != "bmp"@.len());
    }
    assert(n != "audio"@) by {
        assert("mpeg2-transport-stream"@.len() != "audio"@.len());
    }
    assert(n != "mp3"@) by {
        assert("mpeg2-transport-stream"@.len() != "mp3"@.len());
    }
    assert(n != "wav"@) by {
        assert("mpeg2-transport-stream"@.len() != "wav"@.len());
    }
    assert(n != "aiff"@) by {
        assert("mpeg2-transport-stream"@.len() != "aiff"@.len());
    }
    assert(n != "midi"@) by {
        assert("mpeg2-transport-stream"@.len() != "midi"@.len());
    }
    assert(n != "mp4-audio"@) by {
        assert("mpeg2-transport-stream"@.len() != "mp4-audio"@.len());
    }
    assert(n != "apple-protected-mp4-audio"@) by {
        assert("mpeg2-transport-stream"@.len() != "apple-protected-mp4-audio"@.len());
    }
    assert(n != "flac"@) by {
        assert("mpeg2-transport-stream"@.len() != "flac"@.len());
    }
    assert(n != "ogg-audio"@) by {
        assert("mpeg2-transport-stream"@.len() != "ogg-audio"@.len());
    }
    assert(n != "ac3-audio"@) by {
        assert("mpeg2-transport-stream"@.len() != "ac3-audio"@.len());
    }
    assert(n != "aac-audio"@) by {
        assert("mpeg2-transport-stream"@.len() != "aac-audio"@.len());
    }
    assert(n != "video"@) by {
        assert("mpeg2-transport-stream"@.len() != "video"@.len());
    }
    assert(parse_spec(n) == Some(SuperType::Mpeg2TransportStream));
}

proof fn lemma_display_parse_movie()
    ensures
        parse_spec(normalized(name_spec(SuperType::Movie))) == Some(SuperType::Movie),
{
    reveal_strlit("movie");
    reveal_strlit("text");
    reveal_strlit("plain-text");
    reveal_strlit("csv");
    reveal_strlit("json");
    reveal_strlit("xml");
    reveal_strlit("yaml");
    reveal_strlit("html");
    reveal_strlit("markdown");
    reveal_strlit("rtf");
    reveal_strlit("image");
    reveal_strlit("raw-image");
    reveal_strlit("png");
    reveal_strlit("jpeg");
    reveal_strlit("gif");
    reveal_strlit("tiff");
    reveal_strlit("svg");
    reveal_strlit("webp");
    reveal_strlit("heic");
    reveal_strlit("heif");
    reveal_strlit("bmp");
    reveal_strlit("audio");
    reveal_strlit("mp3");
    reveal_strlit("wav");
    reveal_strlit("aiff");
    reveal_strlit("midi");
    reveal_strlit("mp4-audio");
    reveal_strlit("apple-protected-mp4-audio");
    reveal_strlit("flac");
    reveal_strlit("ogg-audio");
    reveal_strlit("ac3-audio");
    reveal_strlit("aac-audio");
    reveal_strlit("video");
    reveal_strlit("mpeg2-transport-stream");
    assert(normalized(name_spec(SuperType::Movie)) =~= "movie"@);
    let n = normalized(name_spec(SuperType::Movie));
    assert(n != "text"@) by {
        assert("movie"@.len() != "text"@.len());
    }
    assert(n != "plain-text"@) by {
        assert("movie"@.len() != "plain-text"@.len());
    }
    assert(n != "csv"@) by {
        assert("movie"@.len() != "csv"@.len());
    }
    assert(n != "json"@) by {
        assert("movie"@.len() != "json"@.len());
    }
    assert(n != "xml"@) by {
        assert("movie"@.len() != "xml"@.len());
    }
    assert(n != "yaml"@) by {
        assert("movie"@.len() != "yaml"@.len());
    }
    assert(n != "html"@) by {
        assert("movie"@.len() != "html"@.len());
    }
    assert(n != "markdown"@) by {
        assert("movie"@.len() != "markdown"@.len());
    }
    assert(n != "rtf"@) by {
        assert("movie"@.len() != "rtf"@.len());
    }
    assert(n != "image"@) by {
        assert("movie"@[0] != "image"@[0]);
    }
    assert(n != "raw-image"@) by {
        assert("movie"@.len() != "raw-image"@.len());
    }
    assert(n != "png"@) by {
        assert("movie"@.len() != "png"@.len());
    }
    assert(n != "jpeg"@) by {
        assert("movie"@.len() != "jpeg"@.len());
    }
    assert(n != "gif"@) by {
        assert("movie"@.len() != "gif"@.len());
    }
    assert(n != "tiff"@) by {
        assert("movie"@.len() != "tiff"@.len());
    }
    assert(n != "svg"@) by {
        assert("movie"@.len() != "svg"@.len());
    }
    assert(n != "webp"@) by {
        assert("movie"@.len() != "webp"@.len());
    }
    assert(n != "heic"@) by {
        assert("movie"@.len() != "heic"@.len());
    }
    assert(n != "heif"@) by {
        assert("movie"@.len() != "heif"@.len());
    }
    assert(n != "bmp"@) by {
        assert("movie"@.len() != "bmp"@.len());
    }
    assert(n != "audio"@) by {
        assert("movie"@[0] != "audio"@[0]);
    }
    assert(n != "mp3"@) by {
        assert("movie"@.len() != "mp3"@.len());
    }
    assert(n != "wav"@) by {
        assert("movie"@.len() != "wav"@.len());
    }
    assert(n != "aiff"@) by {
        assert("movie"@.len() != "aiff"@.len());
    }
    assert(n != "midi"@) by {
        assert("movie"@.len() != "midi"@.len());
    }
    assert(n != "mp4-audio"@) by {
        assert("movie"@.len() != "mp4-audio"@.len());
    }
    assert(n != "apple-protected-mp4-audio"@) by {
        assert("movie"@.len() != "apple-protected-mp4-audio"@.len());
    }
    assert(n != "flac"@) by {
        assert("movie"@.len() != "flac"@.len());
    }
    assert(n != "ogg-audio"@) by {
        assert("movie"@.len() != "ogg-audio"@.len());
    }
    assert(n != "ac3-audio"@) by {
        assert("movie"@.len() != "ac3-audio"@.len());
    }
    assert(n != "aac-audio"@) by {
        assert("movie"@.len() != "aac-audio"@.len());
    }
    assert(n != "video"@) by {
        assert("movie"@[0] != "video"@[0]);
    }
    assert(n != "mpeg2-transport-stream"@) by {
        assert("movie"@.len() != "mpeg2-transport-stream"@.len());
    }
    assert(parse_spec(n) == Some(SuperType::Movie));
}

proof fn lemma_display_parse_quicktimemovie()
    ensures
        parse_spec(normalized(name_spec(SuperType::QuicktimeMovie))) == Some(SuperType::QuicktimeMovie),
{
    reveal_strlit("quicktime-movie");
    reveal_strlit("text");
    reveal_strlit("plain-text");
    reveal_strlit("csv");
    reveal_strlit("json");
    reveal_strlit("xml");
    reveal_strlit("yaml");
    reveal_strlit("html");
    reveal_strlit("markdown");
    reveal_strlit("rtf");
    reveal_strlit("image");
    reveal_strlit("raw-image");
    reveal_strlit("png");
    reveal_strlit("jpeg");
    reveal_strlit("gif");
    reveal_strlit("tiff");
    reveal_strlit("svg");
    reveal_strlit("webp");
    reveal_strlit("heic");
    reveal_strlit("heif");
    reveal_strlit("bmp");
    reveal_strlit("audio");
    reveal_strlit("mp3");
    reveal_strlit("wav");
    reveal_strlit("aiff");
    reveal_strlit("midi");
    reveal_strlit("mp4-audio");
    reveal_strlit("apple-protected-mp4-audio");
    reveal_strlit("flac");
    reveal_strlit("ogg-audio");
    reveal_strlit("ac3-audio");
    reveal_strlit("aac-audio");
    reveal_strlit("video");
    reveal_strlit("mpeg2-transport-stream");
    reveal_strlit("movie");
    assert(normalized(name_spec(SuperType::QuicktimeMovie)) =~= "quicktime-movie"@);
    let n = normalized(name_spec(SuperType::QuicktimeMovie));
    assert(n != "text"@) by {
        assert("quicktime-movie"@.len() != "text"@.len());
    }
    assert(n != "plain-text"@) by {
        assert("quicktime-movie"@.len() != "plain-text"@.len());
    }
    assert(n != "csv"@) by {
        assert("quicktime-movie"@.len() != "csv"@.len());
    }
    assert(n != "json"@) by {
        assert("quicktime-movie"@.len() != "json"@.len());
    }
    assert(n != "xml"@) by {
        assert("quicktime-movie"@.len() != "xml"@.len());
    }
    assert(n != "yaml"@) by {
        assert("quicktime-movie"@.len() != "yaml"@.len());
    }
    assert(n != "html"@) by {
        assert("quicktime-movie"@.len() != "html"@.len());
    }
    assert(n != "markdown"@) by {
        assert("quicktime-movie"@.len() != "markdown"@.len());
    }
    assert(n != "rtf"@) by {
        assert("quicktime-movie"@.len() != "rtf"@.len());
    }
    assert(n != "image"@) by {
        assert("quicktime-movie"@.len() != "image"@.len());
    }
    assert(n != "raw-image"@) by {
        assert("quicktime-movie"@.len() != "raw-image"@.len());
    }
    assert(n != "png"@) by {
        assert("quicktime-movie"@.len() != "png"@.len());
    }
    assert(n != "jpeg"@) by {
        assert("quicktime-movie"@.len() != "jpeg"@.len());
    }
    assert(n != "gif"@) by {
        assert("quicktime-movie"@.len() != "gif"@.len());
    }
    assert(n != "tiff"@) by {
        assert("quicktime-movie"@.len() != "tiff"@.len());
    }
    assert(n != "svg"@) by {
        assert("quicktime-movie"@.len() != "svg"@.len());
    }
    assert(n != "webp"@) by {
        assert("quicktime-movie"@.len() != "webp"@.len());
    }
    assert(n != "heic"@) by {
        assert("quicktime-movie"@.len() != "heic"@.len());
    }
    assert(n != "heif"@) by {
        assert("quicktime-movie"@.len() != "heif"@.len());
    }
    assert(n != "bmp"@) by {
        assert("quicktime-movie"@.len() != "bmp"@.len());
    }
    assert(n != "audio"@) by {
        assert("quicktime-movie"@.len() != "audio"@.len());
    }
    assert(n != "mp3"@) by {
        assert("quicktime-movie"@.len() != "mp3"@.len());
    }
    assert(n != "wav"@) by {
        assert("quicktime-movie"@.len() != "wav"@.len());
    }
    assert(n != "aiff"@) by {
        assert("quicktime-movie"@.len() != "aiff"@.len());
    }
    assert(n != "midi"@) by {
        assert("quicktime-movie"@.len() != "midi"@.len());
    }
    assert(n != "mp4-audio"@) by {
        assert("quicktime-movie"@.len() != "mp4-audio"@.len());
    }
    assert(n != "apple-protected-mp4-audio"@) by {
        assert("quicktime-movie"@.len() != "apple-protected-mp4-audio"@.len());
    }
    assert(n != "flac"@) by {
        assert("quicktime-movie"@.len() != "flac"@.len());
    }
    assert(n != "ogg-audio"@) by {
        assert("quicktime-movie"@.len() != "ogg-audio"@.len());
    }
    assert(n != "ac3-audio"@) by {
        assert("quicktime-movie"@.len() != "ac3-audio"@.len());
    }
    assert(n != "aac-audio"@) by {
        assert("quicktime-movie"@.len() != "aac-audio"@.len());
    }
    assert(n != "video"@) by {
        assert("quicktime-movie"@.len() != "video"@.len());
    }
    assert(n != "mpeg2-transport-stream"@) by {
        assert("quicktime-movie"@.len() != "mpeg2-transport-stream"@.len());
    }
    assert(n != "movie"@) by {
        assert("quicktime-movie"@.len() != "movie"@.len());
    }
    assert(parse_spec(n) == Some(SuperType::QuicktimeMovie));
}

proof fn lemma_display_parse_mp4movie()
    ensures
        parse_spec(normalized(name_spec(SuperType::Mp4Movie))) == Some(SuperType::Mp4Movie),
{
    reveal_strlit("mp4-movie");
    reveal_strlit("text");
    reveal_strlit("plain-text");
    reveal_strlit("csv");
    reveal_strlit("json");
    reveal_strlit("xml");
    reveal_strlit("yaml");
    reveal_strlit("html");
    reveal_strlit("markdown");
    reveal_strlit("rtf");
    reveal_strlit("image");
    reveal_strlit("raw-image");
    reveal_strlit("png");
    reveal_strlit("jpeg");
    reveal_strlit("gif");
    reveal_strlit("tiff");
    reveal_strlit("svg");
    reveal_strlit("webp");
    reveal_strlit("heic");
    reveal_strlit("heif");
    reveal_strlit("bmp");
    reveal_strlit("audio");
    reveal_strlit("mp3");
    reveal_strlit("wav");
    reveal_strlit("aiff");
    reveal_strlit("midi");
    reveal_strlit("mp4-audio");
    reveal_strlit("apple-protected-mp4-audio");
    reveal_strlit("flac");
    reveal_strlit("ogg-audio");
    reveal_strlit("ac3-audio");
    reveal_strlit("aac-audio");
    reveal_strlit("video");
    reveal_strlit("mpeg2-transport-stream");
    reveal_strlit("movie");
    reveal_strlit("quicktime-movie");
    assert(normalized(name_spec(SuperType::Mp4Movie)) =~= "mp4-movie"@);
    let n = normalized(name_spec(SuperType::Mp4Movie));
    assert(n != "text"@) by {
        assert("mp4-movie"@.len() != "text"@.len());
    }
    assert(n != "plain-text"@) by {
        assert("mp4-movie"@.len() != "plain-text"@.len());
    }
    assert(n != "csv"@) by {
        assert("mp4-movie"@.len() != "csv"@.len());
    }
    assert(n != "json"@) by {
        assert("mp4-movie"@.len() != "json"@.len());
    }
    assert(n != "xml"@) by {
        assert("mp4-movie"@.len() != "xml"@.len());
    }
    assert(n != "yaml"@) by {
        assert("mp4-movie"@.len() != "yaml"@.len());
    }
    assert(n != "html"@) by {
        assert("mp4-movie"@.len() != "html"@.len());
    }
    assert(n != "markdown"@) by {
        assert("mp4-movie"@.len() != "markdown"@.len());
    }
    assert(n != "rtf"@) by {
        assert("mp4-movie"@.len() != "rtf"@.len());
    }
    assert(n != "image"@) by {
        assert("mp4-movie"@.len() != "image"@.len());
    }
    assert(n != "raw-image"@) by {
        assert("mp4-movie"@[0] != "raw-image"@[0]);
    }
    assert(n != "png"@) by {
        assert("mp4-movie"@.len() != "png"@.len());
    }
    assert(n != "jpeg"@) by {
        assert("mp4-movie"@.len() != "jpeg"@.len());
    }
    assert(n != "gif"@) by {
        assert("mp4-movie"@.len() != "gif"@.len());
    }
    assert(n != "tiff"@) by {
        assert("mp4-movie"@.len() != "tiff"@.len());
    }
    assert(n != "svg"@) by {
        assert("mp4-movie"@.len() != "svg"@.len());
    }
    assert(n != "webp"@) by {
        assert("mp4-movie"@.len() != "webp"@.len());
    }
    assert(n != "heic"@) by {
        assert("mp4-movie"@.len() != "heic"@.len());
    }
    assert(n != "heif"@) by {
        assert("mp4-movie"@.len() != "heif"@.len());
    }
    assert(n != "bmp"@) by {
        assert("mp4-movie"@.len() != "bmp"@.len());
    }
    assert(n != "audio"@) by {
        assert("mp4-movie"@.len() != "audio"@.len());
    }
    assert(n != "mp3"@) by {
        assert("mp4-movie"@.len() != "mp3"@.len());
    }
    assert(n != "wav"@) by {
        assert("mp4-movie"@.len() != "wav"@.len());
    }
    assert(n != "aiff"@) by {
        assert("mp4-movie"@.len() != "aiff"@.len());
    }
    assert(n != "midi"@) by {
        assert("mp4-movie"@.len() != "midi"@.len());
    }
    assert(n != "mp4-audio"@) by {
        assert("mp4-movie"@[4] != "mp4-audio"@[4]);
    }
    assert(n != "apple-protected-mp4-audio"@) by {
        assert("mp4-movie"@.len() != "apple-protected-mp4-audio"@.len());
    }
    assert(n != "flac"@) by {
        assert("mp4-movie"@.len() != "flac"@.len());
    }
    assert(n != "ogg-audio"@) by {
        assert("mp4-movie"@[0] != "ogg-audio"@[0]);
    }
    assert(n != "ac3-audio"@) by {
        assert("mp4-movie"@[0] != "ac3-audio"@[0]);
    }
    assert(n != "aac-audio"@) by {
        assert("mp4-movie"@[0] != "aac-audio"@[0]);
    }
    assert(n != "video"@) by {
        assert("mp4-movie"@.len() != "video"@.len());
    }
    assert(n != "mpeg2-transport-stream"@) by {
        assert("mp4-movie"@.len() != "mpeg2-transport-stream"@.len());
    }
    assert(n != "movie"@) by {
        assert("mp4-movie"@.len() != "movie"@.len());
    }
    assert(n != "quicktime-movie"@) by {
        assert("mp4-movie"@.len() != "quicktime-movie"@.len());
    }
    assert(parse_spec(n) == Some(SuperType::Mp4Movie));
}

proof fn lemma_display_parse_appleprotectedmp4video()
    ensures
        parse_spec(normalized(name_spec(SuperType::AppleProtectedMp4Video))) == Some(SuperType::AppleProtectedMp4Video),
{
    reveal_strlit("apple-protected-mp4-video");
    reveal_strlit("text");
    reveal_strlit("plain-text");
    reveal_strlit("csv");
    reveal_strlit("json");
    reveal_strlit("xml");
    reveal_strlit("yaml");
    reveal_strlit("html");
    reveal_strlit("markdown");
    reveal_strlit("rtf");
    reveal_strlit("image");
    reveal_strlit("raw-image");
    reveal_strlit("png");
    reveal_strlit("jpeg");
    reveal_strlit("gif");
    reveal_strlit("tiff");
    reveal_strlit("svg");
    reveal_strlit("webp");
    reveal_strlit("heic");
    reveal_strlit("heif");
    reveal_strlit("bmp");
    reveal_strlit("audio");
    reveal_strlit("mp3");
    reveal_strlit("wav");
    reveal_strlit("aiff");
    reveal_strlit("midi");
    reveal_strlit("mp4-audio");
    reveal_strlit("apple-protected-mp4-audio");
    reveal_strlit("flac");
    reveal_strlit("ogg-audio");
    reveal_strlit("ac3-audio");
    reveal_strlit("aac-audio");
    reveal_strlit("video");
    reveal_strlit("mpeg2-transport-stream");
    reveal_strlit("movie");
    reveal_strlit("quicktime-movie");
    reveal_strlit("mp4-movie");
    assert(normalized(name_spec(SuperType::AppleProtectedMp4Video)) =~= "apple-protected-mp4-video"@);
    let n = normalized(name_spec(SuperType::AppleProtectedMp4Video));
    assert(n != "text"@) by {
        assert("apple-protected-mp4-video"@.len() != "text"@.len());
    }
    assert(n != "plain-text"@) by {
        assert("apple-protected-mp4-video"@.len() != "plain-text"@.len());
    }
    assert(n != "csv"@) by {
        assert("apple-protected-mp4-video"@.len() != "csv"@.len());
    }
    assert(n != "json"@) by {
        assert("apple-protected-mp4-video"@.len() != "json"@.len());
    }
    assert(n != "xml"@) by {
        assert("apple-protected-mp4-video"@.len() != "xml"@.len());
    }
    assert(n != "yaml"@) by {
        assert("apple-protected-mp4-video"@.len() != "yaml"@.len());
    }
    assert(n != "html"@) by {
        assert("apple-protected-mp4-video"@.len() != "html"@.len());
    }
    assert(n != "markdown"@) by {
        assert("apple-protected-mp4-video"@.len() != "markdown"@.len());
    }
    assert(n != "rtf"@) by {
        assert("apple-protected-mp4-video"@.len() != "rtf"@.len());
    }
    assert(n != "image"@) by {
        assert("apple-protected-mp4-video"@.len() != "image"@.len());
    }
    assert(n != "raw-image"@) by {
        assert("apple-protected-mp4-video"@.len() != "raw-image"@.len());
    }
    assert(n != "png"@) by {
        assert("apple-protected-mp4-video"@.len() != "png"@.len());
    }
    assert(n != "jpeg"@) by {
        assert("apple-protected-mp4-video"@.len() != "jpeg"@.len());
    }
    assert(n != "gif"@) by {
        assert("apple-protected-mp4-video"@.len() != "gif"@.len());
    }
    assert(n != "tiff"@) by {
        assert("apple-protected-mp4-video"@.len() != "tiff"@.len());
    }
    assert(n != "svg"@) by {
        assert("apple-protected-mp4-video"@.len() != "svg"@.len());
    }
    assert(n != "webp"@) by {
        assert("apple-protected-mp4-video"@.len() != "webp"@.len());
    }
    assert(n != "heic"@) by {
        assert("apple-protected-mp4-video"@.len() != "heic"@.len());
    }
    assert(n != "heif"@) by {
        assert("apple-protected-mp4-video"@.len() != "heif"@.len());
    }
    assert(n != "bmp"@) by {
        assert("apple-protected-mp4-video"@.len() != "bmp"@.len());
    }
    assert(n != "audio"@) by {
        assert("apple-protected-mp4-video"@.len() != "audio"@.len());
    }
    assert(n != "mp3"@) by {
        assert("apple-protected-mp4-video"@.len() != "mp3"@.len());
    }
    assert(n != "wav"@) by {
        assert("apple-protected-mp4-video"@.len() != "wav"@.len());
    }
    assert(n != "aiff"@) by {
        assert("apple-protected-mp4-video"@.len() != "aiff"@.len());
    }
    assert(n != "midi"@) by {
        assert("apple-protected-mp4-video"@.len() != "midi"@.len());
    }
    assert(n != "mp4-audio"@) by {
        assert("apple-protected-mp4-video"@.len() != "mp4-audio"@.len());
    }
    assert(n != "apple-protected-mp4-audio"@) by {
        assert("apple-protected-mp4-video"@[20] != "apple-protected-mp4-audio"@[20]);
    }
    assert(n != "flac"@) by {
        assert("apple-protected-mp4-video"@.len() != "flac"@.len());
    }
    assert(n != "ogg-audio"@) by {
        assert("apple-protected-mp4-video"@.len() != "ogg-audio"@.len());
    }
    assert(n != "ac3-audio"@) by {
        assert("apple-protected-mp4-video"@.len() != "ac3-audio"@.len());
    }
    assert(n != "aac-audio"@) by {
        assert("apple-protected-mp4-video"@.len() != "aac-audio"@.len());
    }
    assert(n != "video"@) by {
        assert("apple-protected-mp4-video"@.len() != "video"@.len());
    }
    assert(n != "mpeg2-transport-stream"@) by {
        assert("apple-protected-mp4-video"@.len() != "mpeg2-transport-stream"@.len());
    }
    assert(n != "movie"@) by {
        assert("apple-protected-mp4-video"@.len() != "movie"@.len());
    }
    assert(n != "quicktime-movie"@) by {
        assert("apple-protected-mp4-video"@.len() != "quicktime-movie"@.len());
    }
    assert(n != "mp4-movie"@) by {
        assert("apple-protected-mp4-video"@.len() != "mp4-movie"@.len());
    }
    assert(parse_spec(n) == Some(SuperType::AppleProtectedMp4Video));
}

proof fn lemma_display_parse_mpeg()
    ensures
        parse_spec(normalized(name_spec(SuperType::Mpeg))) == Some(SuperType::Mpeg),
{
    reveal_strlit("mpeg");
    reveal_strlit("text");
    reveal_strlit("plain-text");
    reveal_strlit("csv");
    reveal_strlit("json");
    reveal_strlit("xml");
    reveal_strlit("yaml");
    reveal_strlit("html");
    reveal_strlit("markdown");
    reveal_strlit("rtf");
    reveal_strlit("image");
    reveal_strlit("raw-image");
    reveal_strlit("png");
    reveal_strlit("jpeg");
    reveal_strlit("gif");
    reveal_strlit("tiff");
    reveal_strlit("svg");
    reveal_strlit("webp");
    reveal_strlit("heic");
    reveal_strlit("heif");
    reveal_strlit("bmp");
    reveal_strlit("audio");
    reveal_strlit("mp3");
    reveal_strlit("wav");
    reveal_strlit("aiff");
    reveal_strlit("midi");
    reveal_strlit("mp4-audio");
    reveal_strlit("apple-protected-mp4-audio");
    reveal_strlit("flac");
    reveal_strlit("ogg-audio");
    reveal_strlit("ac3-audio");
    reveal_strlit("aac-audio");
    reveal_strlit("video");
    reveal_strlit("mpeg2-transport-stream");
    reveal_strlit("movie");
    reveal_strlit("quicktime-movie");
    reveal_strlit("mp4-movie");
    reveal_strlit("apple-protected-mp4-video");
    assert(normalized(name_spec(SuperType::Mpeg)) =~= "mpeg"@);
    let n = normalized(name_spec(SuperType::Mpeg));
    assert(n != "text"@) by {
        assert("mpeg"@[0] != "text"@[0]);
    }
    assert(n != "plain-text"@) by {
        assert("mpeg"@.len() != "plain-text"@.len());
    }
    assert(n != "csv"@) by {
        assert("mpeg"@.len() != "csv"@.len());
    }
    assert(n != "json"@) by {
        assert("mpeg"@[0] != "json"@[0]);
    }
    assert(n != "xml"@) by {
        assert("mpeg"@.len() != "xml"@.len());
    }
    assert(n != "yaml"@) by {
        assert("mpeg"@[0] != "yaml"@[0]);
    }
    assert(n != "html"@) by {
        assert("mpeg"@[0] != "html"@[0]);
    }
    assert(n != "markdown"@) by {
        assert("mpeg"@.len() != "markdown"@.len());
    }
    assert(n != "rtf"@) by {
        assert("mpeg"@.len() != "rtf"@.len());
    }
    assert(n != "image"@) by {
        assert("mpeg"@.len() != "image"@.len());
    }
    assert(n != "raw-image"@) by {
        assert("mpeg"@.len() != "raw-image"@.len());
    }
    assert(n != "png"@) by {
        assert("mpeg"@.len() != "png"@.len());
    }
    assert(n != "jpeg"@) by {
        assert("mpeg"@[0] != "jpeg"@[0]);
    }
    assert(n != "gif"@) by {
        assert("mpeg"@.len() != "gif"@.len());
    }
    assert(n != "tiff"@) by {
        assert("mpeg"@[0] != "tiff"@[0]);
    }
    assert(n != "svg"@) by {
        assert("mpeg"@.len() != "svg"@.len());
    }
    assert(n != "webp"@) by {
        assert("mpeg"@[0] != "webp"@[0]);
    }
    assert(n != "heic"@) by {
        assert("mpeg"@[0] != "heic"@[0]);
    }
    assert(n != "heif"@) by {
        assert("mpeg"@[0] != "heif"@[0]);
    }
    assert(n != "bmp"@) by {
        assert("mpeg"@.len() != "bmp"@.len());
    }
    assert(n != "audio"@) by {
        assert("mpeg"@.len() != "audio"@.len());
    }
    assert(n != "mp3"@) by {
        assert("mpeg"@.len() != "mp3"@.len());
    }
    assert(n != "wav"@) by {
        assert("mpeg"@.len() != "wav"@.len());
    }
    assert(n != "aiff"@) by {
        assert("mpeg"@[0] != "aiff"@[0]);
    }
    assert(n != "midi"@) by {
        assert("mpeg"@[1] != "midi"@[1]);
    }
    assert(n != "mp4-audio"@) by {
        assert("mpeg"@.len() != "mp4-audio"@.len());
    }
    assert(n != "apple-protected-mp4-audio"@) by {
        assert("mpeg"@.len() != "apple-protected-mp4-audio"@.len());
    }
    assert(n != "flac"@) by {
        assert("mpeg"@[0] != "flac"@[0]);
    }
    assert(n != "ogg-audio"@) by {
        assert("mpeg"@.len() != "ogg-audio"@.len());
    }
    assert(n != "ac3-audio"@) by {
        assert("mpeg"@.len() != "ac3-audio"@.len());
    }
    assert(n != "aac-audio"@) by {
        assert("mpeg"@.len() != "aac-audio"@.len());
    }
    assert(n != "video"@) by {
        assert("mpeg"@.len() != "video"@.len());
    }
    assert(n != "mpeg2-transport-stream"@) by {
        assert("mpeg"@.len() != "mpeg2-transport-stream"@.len());
    }
    assert(n != "movie"@) by {
        assert("mpeg"@.len() != "movie"@.len());
    }
    assert(n != "quicktime-movie"@) by {
        assert("mpeg"@.len() != "quicktime-movie"@.len());
    }
    assert(n != "mp4-movie"@) by {
        assert("mpeg"@.len() != "mp4-movie"@.len());
    }
    assert(n != "apple-protected-mp4-video"@) by {
        assert("mpeg"@.len() != "apple-protected-mp4-video"@.len());
    }
    assert(parse_spec(n) == Some(SuperType::Mpeg));
}

proof fn lemma_display_parse_mpeg2video()
    ensures
        parse_spec(normalized(name_spec(SuperType::Mpeg2Video))) == Some(SuperType::Mpeg2Video),
{
    reveal_strlit("mpeg2-video");
    reveal_strlit("text");
    reveal_strlit("plain-text");
    reveal_strlit("csv");
    reveal_strlit("json");
    reveal_strlit("xml");
    reveal_strlit("yaml");
    reveal_strlit("html");
    reveal_strlit("markdown");
    reveal_strlit("rtf");
    reveal_strlit("image");
    reveal_strlit("raw-image");
    reveal_strlit("png");
    reveal_strlit("jpeg");
    reveal_strlit("gif");
    reveal_strlit("tiff");
    reveal_strlit("svg");
    reveal_strlit("webp");
    reveal_strlit("heic");
    reveal_strlit("heif");
    reveal_strlit("bmp");
    reveal_strlit("audio");
    reveal_strlit("mp3");
    reveal_strlit("wav");
    reveal_strlit("aiff");
    reveal_strlit("midi");
    reveal_strlit("mp4-audio");
    reveal_strlit("apple-protected-mp4-audio");
    reveal_strlit("flac");
    reveal_strlit("ogg-audio");
    reveal_strlit("ac3-audio");
    reveal_strlit("aac-audio");
    reveal_strlit("video");
    reveal_strlit("mpeg2-transport-stream");
    reveal_strlit("movie");
    reveal_strlit("quicktime-movie");
    reveal_strlit("mp4-movie");
    reveal_strlit("apple-protected-mp4-video");
    reveal_strlit("mpeg");
    assert(normalized(name_spec(SuperType::Mpeg2Video)) =~= "mpeg2-video"@);
    let n = normalized(name_spec(SuperType::Mpeg2Video));
    assert(n != "text"@) by {
        assert("mpeg2-video"@.len() != "text"@.len());
    }
    assert(n != "plain-text"@) by {
        assert("mpeg2-video"@.len() != "plain-text"@.len());
    }
    assert(n != "csv"@) by {
        assert("mpeg2-video"@.len() != "csv"@.len());
    }
    assert(n != "json"@) by {
        assert("mpeg2-video"@.len() != "json"@.len());
    }
    assert(n != "xml"@) by {
        assert("mpeg2-video"@.len() != "xml"@.len());
    }
    assert(n != "yaml"@) by {
        assert("mpeg2-video"@.len() != "yaml"@.len());
    }
    assert(n != "html"@) by {
        assert("mpeg2-video"@.len() != "html"@.len());
    }
    assert(n != "markdown"@) by {
        assert("mpeg2-video"@.len() != "markdown"@.len());
    }
    assert(n != "rtf"@) by {
        assert("mpeg2-video"@.len() != "rtf"@.len());
    }
    assert(n != "image"@) by {
        assert("mpeg2-video"@.len() != "image"@.len());
    }
    assert(n != "raw-image"@) by {
        assert("mpeg2-video"@.len() != "raw-image"@.len());
    }
    assert(n != "png"@) by {
        assert("mpeg2-video"@.len() != "png"@.len());
    }
    assert(n != "jpeg"@) by {
        assert("mpeg2-video"@.len() != "jpeg"@.len());
    }
    assert(n != "gif"@) by {
        assert("mpeg2-video"@.len() != "gif"@.len());
    }
    assert(n != "tiff"@) by {
        assert("mpeg2-video"@.len() != "tiff"@.len());
    }
    assert(n != "svg"@) by {
        assert("mpeg2-video"@.len() != "svg"@.len());
    }
    assert(n != "webp"@) by {
        assert("mpeg2-video"@.len() != "webp"@.len());
    }
    assert(n != "heic"@) by {
        assert("mpeg2-video"@.len() != "heic"@.len());
    }
    assert(n != "heif"@) by {
        assert("mpeg2-video"@.len() != "heif"@.len());
    }
    assert(n != "bmp"@) by {
        assert("mpeg2-video"@.len() != "bmp"@.len());
    }
    assert(n != "audio"@) by {
        assert("mpeg2-video"@.len() != "audio"@.len());
    }
    assert(n != "mp3"@) by {
        assert("mpeg2-video"@.len() != "mp3"@.len());
    }
    assert(n != "wav"@) by {
        assert("mpeg2-video"@.len() != "wav"@.len());
    }
    assert(n != "aiff"@) by {
        assert("mpeg2-video"@.len() != "aiff"@.len());
    }
    assert(n != "midi"@) by {
        assert("mpeg2-video"@.len() != "midi"@.len());
    }
    assert(n != "mp4-audio"@) by {
        assert("mpeg2-video"@.len() != "mp4-audio"@.len());
    }
    assert(n != "apple-protected-mp4-audio"@) by {
        assert("mpeg2-video"@.len() != "apple-protected-mp4-audio"@.len());
    }
    assert(n != "flac"@) by {
        assert("mpeg2-video"@.len() != "flac"@.len());
    }
    assert(n != "ogg-audio"@) by {
        assert("mpeg2-video"@.len() != "ogg-audio"@.len());
    }
    assert(n != "ac3-audio"@) by {
        assert("mpeg2-video"@.len() != "ac3-audio"@.len());
    }
    assert(n != "aac-audio"@) by {
        assert("mpeg2-video"@.len() != "aac-audio"@.len());
    }
    assert(n != "video"@) by {
        assert("mpeg2-video"@.len() != "video"@.len());
    }
    assert(n != "mpeg2-transport-stream"@) by {
        assert("mpeg2-video"@.len() != "mpeg2-transport-stream"@.len());
    }
    assert(n != "movie"@) by {
        assert("mpeg2-video"@.len() != "movie"@.len());
    }
    assert(n != "quicktime-movie"@) by {
        assert("mpeg2-video"@.len() != "quicktime-movie"@.len());
    }
    assert(n != "mp4-movie"@) by {
        assert("mpeg2-video"@.len() != "mp4-movie"@.len());
    }
    assert(n != "apple-protected-mp4-video"@) by {
        assert("mpeg2-video"@.len() != "apple-protected-mp4-video"@.len());
    }
    assert(n != "mpeg"@) by {
        assert("mpeg2-video"@.len() != "mpeg"@.len());
    }
    assert(parse_spec(n) == Some(SuperType::Mpeg2Video));
}

proof fn lemma_display_parse_avi()
    ensures
        parse_spec(normalized(name_spec(SuperType::Avi))) == Some(SuperType::Avi),
{
    reveal_strlit("avi");
    reveal_strlit("text");
    reveal_strlit("plain-text");
    reveal_strlit("csv");
    reveal_strlit("json");
    reveal_strlit("xml");
    reveal_strlit("yaml");
    reveal_strlit("html");
    reveal_strlit("markdown");
    reveal_strlit("rtf");
    reveal_strlit("image");
    reveal_strlit("raw-image");
    reveal_strlit("png");
    reveal_strlit("jpeg");
    reveal_strlit("gif");
    reveal_strlit("tiff");
    reveal_strlit("svg");
    reveal_strlit("webp");
    reveal_strlit("heic");
    reveal_strlit("heif");
    reveal_strlit("bmp");
    reveal_strlit("audio");
    reveal_strlit("mp3");
    reveal_strlit("wav");
    reveal_strlit("aiff");
    reveal_strlit("midi");
    reveal_strlit("mp4-audio");
    reveal_strlit("apple-protected-mp4-audio");
    reveal_strlit("flac");
    reveal_strlit("ogg-audio");
    reveal_strlit("ac3-audio");
    reveal_strlit("aac-audio");
    reveal_strlit("video");
    reveal_strlit("mpeg2-transport-stream");
    reveal_strlit("movie");
    reveal_strlit("quicktime-movie");
    reveal_strlit("mp4-movie");
    reveal_strlit("apple-protected-mp4-video");
    reveal_strlit("mpeg");
    reveal_strlit("mpeg2-video");
    assert(normalized(name_spec(SuperType::Avi)) =~= "avi"@);
    let n = normalized(name_spec(SuperType::Avi));
    assert(n != "text"@) by {
        assert("avi"@.len() != "text"@.len());
    }
    assert(n != "plain-text"@) by {
        assert("avi"@.len() != "plain-text"@.len());
    }
    assert(n != "csv"@) by {
        assert("avi"@[0] != "csv"@[0]);
    }
    assert(n != "json"@) by {
        assert("avi"@.len() != "json"@.len());
    }
    assert(n != "xml"@) by {
        assert("avi"@[0] != "xml"@[0]);
    }
    assert(n != "yaml"@) by {
        assert("avi"@.len() != "yaml"@.len());
    }
    assert(n != "html"@) by {
        assert("avi"@.len() != "html"@.len());
    }
    assert(n != "markdown"@) by {
        assert("avi"@.len() != "markdown"@.len());
    }
    assert(n != "rtf"@) by {
        assert("avi"@[0] != "rtf"@[0]);
    }
    assert(n != "image"@) by {
        assert("avi"@.len() != "image"@.len());
    }
    assert(n != "raw-image"@) by {
        assert("avi"@.len() != "raw-image"@.len());
    }
    assert(n != "png"@) by {
        assert("avi"@[0] != "png"@[0]);
    }
    assert(n != "jpeg"@) by {
        assert("avi"@.len() != "jpeg"@.len());
    }
    assert(n != "gif"@) by {
        assert("avi"@[0] != "gif"@[0]);
    }
    assert(n != "tiff"@) by {
        assert("avi"@.len() != "tiff"@.len());
    }
    assert(n != "svg"@) by {
        assert("avi"@[0] != "svg"@[0]);
    }
    assert(n != "webp"@) by {
        assert("avi"@.len() != "webp"@.len());
    }
    assert(n != "heic"@) by {
        assert("avi"@.len() != "heic"@.len());
    }
    assert(n != "heif"@) by {
        assert("avi"@.len() != "heif"@.len());
    }
    assert(n != "bmp"@) by {
        assert("avi"@[0] != "bmp"@[0]);
    }
    assert(n != "audio"@) by {
        assert("avi"@.len() != "audio"@.len());
    }
    assert(n != "mp3"@) by {
        assert("avi"@[0] != "mp3"@[0]);
    }
    assert(n != "wav"@) by {
        assert("avi"@[0] != "wav"@[0]);
    }
    assert(n != "aiff"@) by {
        assert("avi"@.len() != "aiff"@.len());
    }
    assert(n != "midi"@) by {
        assert("avi"@.len() != "midi"@.len());
    }
    assert(n != "mp4-audio"@) by {
        assert("avi"@.len() != "mp4-audio"@.len());
    }
    assert(n != "apple-protected-mp4-audio"@) by {
        assert("avi"@.len() != "apple-protected-mp4-audio"@.len());
    }
    assert(n != "flac"@) by {
        assert("avi"@.len() != "flac"@.len());
    }
    assert(n != "ogg-audio"@) by {
        assert("avi"@.len() != "ogg-audio"@.len());
    }
    assert(n != "ac3-audio"@) by {
        assert("avi"@.len() != "ac3-audio"@.len());
    }
    assert(n != "aac-audio"@) by {
        assert("avi"@.len() != "aac-audio"@.len());
    }
    assert(n != "video"@) by {
        assert("avi"@.len() != "video"@.len());
    }
    assert(n != "mpeg2-transport-stream"@) by {
        assert("avi"@.len() != "mpeg2-transport-stream"@.len());
    }
    assert(n != "movie"@) by {
        assert("avi"@.len() != "movie"@.len());
    }
    assert(n != "quicktime-movie"@) by {
        assert("avi"@.len() != "quicktime-movie"@.len());
    }
    assert(n != "mp4-movie"@) by {
        assert("avi"@.len() != "mp4-movie"@.len());
    }
    assert(n != "apple-protected-mp4-video"@) by {
        assert("avi"@.len() != "apple-protected-mp4-video"@.len());
    }
    assert(n != "mpeg"@) by {
        assert("avi"@.len() != "mpeg"@.len());
    }
    assert(n != "mpeg2-video"@) by {
        assert("avi"@.len() != "mpeg2-video"@.len());
    }
    assert(parse_spec(n) == Some(SuperType::Avi));
}

proof fn lemma_display_parse_dvmovie()
    ensures
        parse_spec(normalized(name_spec(SuperType::DvMovie))) == Some(SuperType::DvMovie),
{
    reveal_strlit("dv-movie");
    reveal_strlit("text");
    reveal_strlit("plain-text");
    reveal_strlit("csv");
    reveal_strlit("json");
    reveal_strlit("xml");
    reveal_strlit("yaml");
    reveal_strlit("html");
    reveal_strlit("markdown");
    reveal_strlit("rtf");
    reveal_strlit("image");
    reveal_strlit("raw-image");
    reveal_strlit("png");
    reveal_strlit("jpeg");
    reveal_strlit("gif");
    reveal_strlit("tiff");
    reveal_strlit("svg");
    reveal_strlit("webp");
    reveal_strlit("heic");
    reveal_strlit("heif");
    reveal_strlit("bmp");
    reveal_strlit("audio");
    reveal_strlit("mp3");
    reveal_strlit("wav");
    reveal_strlit("aiff");
    reveal_strlit("midi");
    reveal_strlit("mp4-audio");
    reveal_strlit("apple-protected-mp4-audio");
    reveal_strlit("flac");
    reveal_strlit("ogg-audio");
    reveal_strlit("ac3-audio");
    reveal_strlit("aac-audio");
    reveal_strlit("video");
    reveal_strlit("mpeg2-transport-stream");
    reveal_strlit("movie");
    reveal_strlit("quicktime-movie");
    reveal_strlit("mp4-movie");
    reveal_strlit("apple-protected-mp4-video");
    reveal_strlit("mpeg");
    reveal_strlit("mpeg2-video");
    reveal_strlit("avi");
    assert(normalized(name_spec(SuperType::DvMovie)) =~= "dv-movie"@);
    let n = normalized(name_spec(SuperType::DvMovie));
    assert(n != "text"@) by {
        assert("dv-movie"@.len() != "text"@.len());
    }
    assert(n != "plain-text"@) by {
        assert("dv-movie"@.len() != "plain-text"@.len());
    }
    assert(n != "csv"@) by {
        assert("dv-movie"@.len() != "csv"@.len());
    }
    assert(n != "json"@) by {
        assert("dv-movie"@.len() != "json"@.len());
    }
    assert(n != "xml"@) by {
        assert("dv-movie"@.len() != "xml"@.len());
    }
    assert(n != "yaml"@) by {
        assert("dv-movie"@.len() != "yaml"@.len());
    }
    assert(n != "html"@) by {
        assert("dv-movie"@.len() != "html"@.len());
    }
    assert(n != "markdown"@) by {
        assert("dv-movie"@[0] != "markdown"@[0]);
    }
    assert(n != "rtf"@) by {
        assert("dv-movie"@.len() != "rtf"@.len());
    }
    assert(n != "image"@) by {
        assert("dv-movie"@.len() != "image"@.len());
    }
    assert(n != "raw-image"@) by {
        assert("dv-movie"@.len() != "raw-image"@.len());
    }
    assert(n != "png"@) by {
        assert("dv-movie"@.len() != "png"@.len());
    }
    assert(n != "jpeg"@) by {
        assert("dv-movie"@.len() != "jpeg"@.len());
    }
    assert(n != "gif"@) by {
        assert("dv-movie"@.len() != "gif"@.len());
    }
    assert(n != "tiff"@) by {
        assert("dv-movie"@.len() != "tiff"@.len());
    }
    assert(n != "svg"@) by {
        assert("dv-movie"@.len() != "svg"@.len());
    }
    assert(n != "webp"@) by {
        assert("dv-movie"@.len() != "webp"@.len());
    }
    assert(n != "heic"@) by {
        assert("dv-movie"@.len() != "heic"@.len());
    }
    assert(n != "heif"@) by {
        assert("dv-movie"@.len() != "heif"@.len());
    }
    assert(n != "bmp"@) by {
        assert("dv-movie"@.len() != "bmp"@.len());
    }
    assert(n != "audio"@) by {
        assert("dv-movie"@.len() != "audio"@.len());
    }
    assert(n != "mp3"@) by {
        assert("dv-movie"@.len() != "mp3"@.len());
    }
    assert(n != "wav"@) by {
        assert("dv-movie"@.len() != "wav"@.len());
    }
    assert(n != "aiff"@) by {
        assert("dv-movie"@.len() != "aiff"@.len());
    }
    assert(n != "midi"@) by {
        assert("dv-movie"@.len() != "midi"@.len());
    }
    assert(n != "mp4-audio"@) by {
        assert("dv-movie"@.len() != "mp4-audio"@.len());
    }
    assert(n != "apple-protected-mp4-audio"@) by {
        assert("dv-movie"@.len() != "apple-protected-mp4-audio"@.len());
    }
    assert(n != "flac"@) by {
        assert("dv-movie"@.len() != "flac"@.len());
    }
    assert(n != "ogg-audio"@) by {
        assert("dv-movie"@.len() != "ogg-audio"@.len());
    }
    assert(n != "ac3-audio"@) by {
        assert("dv-movie"@.len() != "ac3-audio"@.len());
    }
    assert(n != "aac-audio"@) by {
        assert("dv-movie"@.len() != "aac-audio"@.len());
    }
    assert(n != "video"@) by {
        assert("dv-movie"@.len() != "video"@.len());
    }
    assert(n != "mpeg2-transport-stream"@) by {
        assert("dv-movie"@.len() != "mpeg2-transport-stream"@.len());
    }
    assert(n != "movie"@) by {
        assert("dv-movie"@.len() != "movie"@.len());
    }
    assert(n != "quicktime-movie"@) by {
        assert("dv-movie"@.len() != "quicktime-movie"@.len());
    }
    assert(n != "mp4-movie"@) by {
        assert("dv-movie"@.len() != "mp4-movie"@.len());
    }
    assert(n != "apple-protected-mp4-video"@) by {
        assert("dv-movie"@.len() != "apple-protected-mp4-video"@.len());
    }
    assert(n != "mpeg"@) by {
        assert("dv-movie"@.len() != "mpeg"@.len());
    }
    assert(n != "mpeg2-video"@) by {
        assert("dv-movie"@.len() != "mpeg2-video"@.len());
    }
    assert(n != "avi"@) by {
        assert("dv-movie"@.len() != "avi"@.len());
    }
    assert(parse_spec(n) == Some(SuperType::DvMovie));
}

proof fn lemma_display_parse_realmedia()
    ensures
        parse_spec(normalized(name_spec(SuperType::RealMedia))) == Some(SuperType::RealMedia),
{
    reveal_strlit("real-media");
    reveal_strlit("text");
    reveal_strlit("plain-text");
    reveal_strlit("csv");
    reveal_strlit("json");
    reveal_strlit("xml");
    reveal_strlit("yaml");
    reveal_strlit("html");
    reveal_strlit("markdown");
    reveal_strlit("rtf");
    reveal_strlit("image");
    reveal_strlit("raw-image");
    reveal_strlit("png");
    reveal_strlit("jpeg");
    reveal_strlit("gif");
    reveal_strlit("tiff");
    reveal_strlit("svg");
    reveal_strlit("webp");
    reveal_strlit("heic");
    reveal_strlit("heif");
    reveal_strlit("bmp");
    reveal_strlit("audio");
    reveal_strlit("mp3");
    reveal_strlit("wav");
    reveal_strlit("aiff");
    reveal_strlit("midi");
    reveal_strlit("mp4-audio");
    reveal_strlit("apple-protected-mp4-audio");
    reveal_strlit("flac");
    reveal_strlit("ogg-audio");
    reveal_strlit("ac3-audio");
    reveal_strlit("aac-audio");
    reveal_strlit("video");
    reveal_strlit("mpeg2-transport-stream");
    reveal_strlit("movie");
    reveal_strlit("quicktime-movie");
    reveal_strlit("mp4-movie");
    reveal_strlit("apple-protected-mp4-video");
    reveal_strlit("mpeg");
    reveal_strlit("mpeg2-video");
    reveal_strlit("avi");
    reveal_strlit("dv-movie");
    assert(normalized(name_spec(SuperType::RealMedia)) =~= "real-media"@);
    let n = normalized(name_spec(SuperType::RealMedia));
    assert(n != "text"@) by {
        assert("real-media"@.len() != "text"@.len());
    }
    assert(n != "plain-text"@) by {
        assert("real-media"@[0] != "plain-text"@[0]);
    }
    assert(n != "csv"@) by {
        assert("real-media"@.len() != "csv"@.len());
    }
    assert(n != "json"@) by {
        assert("real-media"@.len() != "json"@.len());
    }
    assert(n != "xml"@) by {
        assert("real-media"@.len() != "xml"@.len());
    }
    assert(n != "yaml"@) by {
        assert("real-media"@.len() != "yaml"@.len());
    }
    assert(n != "html"@) by {
        assert("real-media"@.len() != "html"@.len());
    }
    assert(n != "markdown"@) by {
        assert("real-media"@.len() != "markdown"@.len());
    }
    assert(n != "rtf"@) by {
        assert("real-media"@.len() != "rtf"@.len());
    }
    assert(n != "image"@) by {
        assert("real-media"@.len() != "image"@.len());
    }
    assert(n != "raw-image"@) by {
        assert("real-media"@.len() != "raw-image"@.len());
    }
    assert(n != "png"@) by {
        assert("real-media"@.len() != "png"@.len());
    }
    assert(n != "jpeg"@) by {
        assert("real-media"@.len() != "jpeg"@.len());
    }
    assert(n != "gif"@) by {
        assert("real-media"@.len() != "gif"@.len());
    }
    assert(n != "tiff"@) by {
        assert("real-media"@.len() != "tiff"@.len());
    }
    assert(n != "svg"@) by {
        assert("real-media"@.len() != "svg"@.len());
    }
    assert(n != "webp"@) by {
        assert("real-media"@.len() != "webp"@.len());
    }
    assert(n != "heic"@) by {
        assert("real-media"@.len() != "heic"@.len());
    }
    assert(n != "heif"@) by {
        assert("real-media"@.len() != "heif"@.len());
    }
    assert(n != "bmp"@) by {
        assert("real-media"@.len() != "bmp"@.len());
    }
    assert(n != "audio"@) by {
        assert("real-media"@.len() != "audio"@.len());
    }
    assert(n != "mp3"@) by {
        assert("real-media"@.len() != "mp3"@.len());
    }
    assert(n != "wav"@) by {
        assert("real-media"@.len() != "wav"@.len());
    }
    assert(n != "aiff"@) by {
        assert("real-media"@.len() != "aiff"@.len());
    }
    assert(n != "midi"@) by {
        assert("real-media"@.len() != "midi"@.len());
    }
    assert(n != "mp4-audio"@) by {
        assert("real-media"@.len() != "mp4-audio"@.len());
    }
    assert(n != "apple-protected-mp4-audio"@) by {
        assert("real-media"@.len() != "apple-protected-mp4-audio"@.len());
    }
    assert(n != "flac"@) by {
        assert("real-media"@.len() != "flac"@.len());
    }
    assert(n != "ogg-audio"@) by {
        assert("real-media"@.len() != "ogg-audio"@.len());
    }
    assert(n != "ac3-audio"@) by {
        assert("real-media"@.len() != "ac3-audio"@.len());
    }
    assert(n != "aac-audio"@) by {
        assert("real-media"@.len() != "aac-audio"@.len());
    }
    assert(n != "video"@) by {
        assert("real-media"@.len() != "video"@.len());
    }
    assert(n != "mpeg2-transport-stream"@) by {
        assert("real-media"@.len() != "mpeg2-transport-stream"@.len());
    }
    assert(n != "movie"@) by {
        assert("real-media"@.len() != "movie"@.len());
    }
    assert(n != "quicktime-movie"@) by {
        assert("real-media"@.len() != "quicktime-movie"@.len());
    }
    assert(n != "mp4-movie"@) by {
        assert("real-media"@.len() != "mp4-movie"@.len());
    }
    assert(n != "apple-protected-mp4-video"@) by {
        assert("real-media"@.len() != "apple-protected-mp4-video"@.len());
    }
    assert(n != "mpeg"@) by {
        assert("real-media"@.len() != "mpeg"@.len());
    }
    assert(n != "mpeg2-video"@) by {
        assert("real-media"@.len() != "mpeg2-video"@.len());
    }
    assert(n != "avi"@) by {
        assert("real-media"@.len() != "avi"@.len());
    }
    assert(n != "dv-movie"@) by {
        assert("real-media"@.len() != "dv-movie"@.len());
    }
    assert(parse_spec(n) == Some(SuperType::RealMedia));
}

proof fn lemma_display_parse_realaudio()
    ensures
        parse_spec(normalized(name_spec(SuperType::RealAudio))) == Some(SuperType::RealAudio),
{
    reveal_strlit("real-audio");
    reveal_strlit("text");
    reveal_strlit("plain-text");
    reveal_strlit("csv");
    reveal_strlit("json");
    reveal_strlit("xml");
    reveal_strlit("yaml");
    reveal_strlit("html");
    reveal_strlit("markdown");
    reveal_strlit("rtf");
    reveal_strlit("image");
    reveal_strlit("raw-image");
    reveal_strlit("png");
    reveal_strlit("jpeg");
    reveal_strlit("gif");
    reveal_strlit("tiff");
    reveal_strlit("svg");
    reveal_strlit("webp");
    reveal_strlit("heic");
    reveal_strlit("heif");
    reveal_strlit("bmp");
    reveal_strlit("audio");
    reveal_strlit("mp3");
    reveal_strlit("wav");
    reveal_strlit("aiff");
    reveal_strlit("midi");
    reveal_strlit("mp4-audio");
    reveal_strlit("apple-protected-mp4-audio");
    reveal_strlit("flac");
    reveal_strlit("ogg-audio");
    reveal_strlit("ac3-audio");
    reveal_strlit("aac-audio");
    reveal_strlit("video");
    reveal_strlit("mpeg2-transport-stream");
    reveal_strlit("movie");
    reveal_strlit("quicktime-movie");
    reveal_strlit("mp4-movie");
    reveal_strlit("apple-protected-mp4-video");
    reveal_strlit("mpeg");
    reveal_strlit("mpeg2-video");
    reveal_strlit("avi");
    reveal_strlit("dv-movie");
    reveal_strlit("real-media");
    assert(normalized(name_spec(SuperType::RealAudio)) =~= "real-audio"@);
    let n = normalized(name_spec(SuperType::RealAudio));
    assert(n != "text"@) by {
        assert("real-audio"@.len() != "text"@.len());
    }
    assert(n != "plain-text"@) by {
        assert("real-audio"@[0] != "plain-text"@[0]);
    }
    assert(n != "csv"@) by {
        assert("real-audio"@.len() != "csv"@.len());
    }
    assert(n != "json"@) by {
        assert("real-audio"@.len() != "json"@.len());
    }
    assert(n != "xml"@) by {
        assert("real-audio"@.len() != "xml"@.len());
    }
    assert(n != "yaml"@) by {
        assert("real-audio"@.len() != "yaml"@.len());
    }
    assert(n != "html"@) by {
        assert("real-audio"@.len() != "html"@.len());
    }
    assert(n != "markdown"@) by {
        assert("real-audio"@.len() != "markdown"@.len());
    }
    assert(n != "rtf"@) by {
        assert("real-audio"@.len() != "rtf"@.len());
    }
    assert(n != "image"@) by {
        assert("real-audio"@.len() != "image"@.len());
    }
    assert(n != "raw-image"@) by {
        assert("real-audio"@.len() != "raw-image"@.len());
    }
    assert(n != "png"@) by {
        assert("real-audio"@.len() != "png"@.len());
    }
    assert(n != "jpeg"@) by {
        assert("real-audio"@.len() != "jpeg"@.len());
    }
    assert(n != "gif"@) by {
        assert("real-audio"@.len() != "gif"@.len());
    }
    assert(n != "tiff"@) by {
        assert("real-audio"@.len() != "tiff"@.len());
    }
    assert(n != "svg"@) by {
        assert("real-audio"@.len() != "svg"@.len());
    }
    assert(n != "webp"@) by {
        assert("real-audio"@.len() != "webp"@.len());
    }
    assert(n != "heic"@) by {
        assert("real-audio"@.len() != "heic"@.len());
    }
    assert(n != "heif"@) by {
        assert("real-audio"@.len() != "heif"@.len());
    }
    assert(n != "bmp"@) by {
        assert("real-audio"@.len() != "bmp"@.len());
    }
    assert(n != "audio"@) by {
        assert("real-audio"@.len() != "audio"@.len());
    }
    assert(n != "mp3"@) by {
        assert("real-audio"@.len() != "mp3"@.len());
    }
    assert(n != "wav"@) by {
        assert("real-audio"@.len() != "wav"@.len());
    }
    assert(n != "aiff"@) by {
        assert("real-audio"@.len() != "aiff"@.len());
    }
    assert(n != "midi"@) by {
        assert("real-audio"@.len() != "midi"@.len());
    }
    assert(n != "mp4-audio"@) by {
        assert("real-audio"@.len() != "mp4-audio"@.len());
    }
    assert(n != "apple-protected-mp4-audio"@) by {
        assert("real-audio"@.len() != "apple-protected-mp4-audio"@.len());
    }
    assert(n != "flac"@) by {
        assert("real-audio"@.len() != "flac"@.len());
    }
    assert(n != "ogg-audio"@) by {
        assert("real-audio"@.len() != "ogg-audio"@.len());
    }
    assert(n != "ac3-audio"@) by {
        assert("real-audio"@.len() != "ac3-audio"@.len());
    }
    assert(n != "aac-audio"@) by {
        assert("real-audio"@.len() != "aac-audio"@.len());
    }
    assert(n != "video"@) by {
        assert("real-audio"@.len() != "video"@.len());
    }
    assert(n != "mpeg2-transport-stream"@) by {
        assert("real-audio"@.len() != "mpeg2-transport-stream"@.len());
    }
    assert(n != "movie"@) by {
        assert("real-audio"@.len() != "movie"@.len());
    }
    assert(n != "quicktime-movie"@) by {
        assert("real-audio"@.len() != "quicktime-movie"@.len());
    }
    assert(n != "mp4-movie"@) by {
        assert("real-audio"@.len() != "mp4-movie"@.len());
    }
    assert(n != "apple-protected-mp4-video"@) by {
        assert("real-audio"@.len() != "apple-protected-mp4-video"@.len());
    }
    assert(n != "mpeg"@) by {
        assert("real-audio"@.len() != "mpeg"@.len());
    }
    assert(n != "mpeg2-video"@) by {
        assert("real-audio"@.len() != "mpeg2-video"@.len());
    }
    assert(n != "avi"@) by {
        assert("real-audio"@.len() != "avi"@.len());
    }
    assert(n != "dv-movie"@) by {
        assert("real-audio"@.len() != "dv-movie"@.len());
    }
    assert(n != "real-media"@) by {
        assert("real-audio"@[5] != "real-media"@[5]);
    }
    assert(parse_spec(n) == Some(SuperType::RealAudio));
}

proof fn lemma_display_parse_webm()
    ensures
        parse_spec(normalized(name_spec(SuperType::Webm))) == Some(SuperType::Webm),
{
    reveal_strlit("webm");
    reveal_strlit("text");
    reveal_strlit("plain-text");
    reveal_strlit("csv");
    reveal_strlit("json");
    reveal_strlit("xml");
    reveal_strlit("yaml");
    reveal_strlit("html");
    reveal_strlit("markdown");
    reveal_strlit("rtf");
    reveal_strlit("image");
    reveal_strlit("raw-image");
    reveal_strlit("png");
    reveal_strlit("jpeg");
    reveal_strlit("gif");
    reveal_strlit("tiff");
    reveal_strlit("svg");
    reveal_strlit("webp");
    reveal_strlit("heic");
    reveal_strlit("heif");
    reveal_strlit("bmp");
    reveal_strlit("audio");
    reveal_strlit("mp3");
    reveal_strlit("wav");
    reveal_strlit("aiff");
    reveal_strlit("midi");
    reveal_strlit("mp4-audio");
    reveal_strlit("apple-protected-mp4-audio");
    reveal_strlit("flac");
    reveal_strlit("ogg-audio");
    reveal_strlit("ac3-audio");
    reveal_strlit("aac-audio");
    reveal_strlit("video");
    reveal_strlit("mpeg2-transport-stream");
    reveal_strlit("movie");
    reveal_strlit("quicktime-movie");
    reveal_strlit("mp4-movie");
    reveal_strlit("apple-protected-mp4-video");
    reveal_strlit("mpeg");
    reveal_strlit("mpeg2-video");
    reveal_strlit("avi");
    reveal_strlit("dv-movie");
    reveal_strlit("real-media");
    reveal_strlit("real-audio");
    assert(normalized(name_spec(SuperType::Webm)) =~= "webm"@);
    let n = normalized(name_spec(SuperType::Webm));
    assert(n != "text"@) by {
        assert("webm"@[0] != "text"@[0]);
    }
    assert(n != "plain-text"@) by {
        assert("webm"@.len() != "plain-text"@.len());
    }
    assert(n != "csv"@) by {
        assert("webm"@.len() != "csv"@.len());
    }
    assert(n != "json"@) by {
        assert("webm"@[0] != "json"@[0]);
    }
    assert(n != "xml"@) by {
        assert("webm"@.len() != "xml"@.len());
    }
    assert(n != "yaml"@) by {
        assert("webm"@[0] != "yaml"@[0]);
    }
    assert(n != "html"@) by {
        assert("webm"@[0] != "html"@[0]);
    }
    assert(n != "markdown"@) by {
        assert("webm"@.len() != "markdown"@.len());
    }
    assert(n != "rtf"@) by {
        assert("webm"@.len() != "rtf"@.len());
    }
    assert(n != "image"@) by {
        assert("webm"@.len() != "image"@.len());
    }
    assert(n != "raw-image"@) by {
        assert("webm"@.len() != "raw-image"@.len());
    }
    assert(n != "png"@) by {
        assert("webm"@.len() != "png"@.len());
    }
    assert(n != "jpeg"@) by {
        assert("webm"@[0] != "jpeg"@[0]);
    }
    assert(n != "gif"@) by {
        assert("webm"@.len() != "gif"@.len());
    }
    assert(n != "tiff"@) by {
        assert("webm"@[0] != "tiff"@[0]);
    }
    assert(n != "svg"@) by {
        assert("webm"@.len() != "svg"@.len());
    }
    assert(n != "webp"@) by {
        assert("webm"@[3] != "webp"@[3]);
    }
    assert(n != "heic"@) by {
        assert("webm"@[0] != "heic"@[0]);
    }
    assert(n != "heif"@) by {
        assert("webm"@[0] != "heif"@[0]);
    }
    assert(n != "bmp"@) by {
        assert("webm"@.len() != "bmp"@.len());
    }
    assert(n != "audio"@) by {
        assert("webm"@.len() != "audio"@.len());
    }
    assert(n != "mp3"@) by {
        assert("webm"@.len() != "mp3"@.len());
    }
    assert(n != "wav"@) by {
        assert("webm"@.len() != "wav"@.len());
    }
    assert(n != "aiff"@) by {
        assert("webm"@[0] != "aiff"@[0]);
    }
    assert(n != "midi"@) by {
        assert("webm"@[0] != "midi"@[0]);
    }
    assert(n != "mp4-audio"@) by {
        assert("webm"@.len() != "mp4-audio"@.len());
    }
    assert(n != "apple-protected-mp4-audio"@) by {
        assert("webm"@.len() != "apple-protected-mp4-audio"@.len());
    }
    assert(n != "flac"@) by {
        assert("webm"@[0] != "flac"@[0]);
    }
    assert(n != "ogg-audio"@) by {
        assert("webm"@.len() != "ogg-audio"@.len());
    }
    assert(n != "ac3-audio"@) by {
        assert("webm"@.len() != "ac3-audio"@.len());
    }
    assert(n != "aac-audio"@) by {
        assert("webm"@.len() != "aac-audio"@.len());
    }
    assert(n != "video"@) by {
        assert("webm"@.len() != "video"@.len());
    }
    assert(n != "mpeg2-transport-stream"@) by {
        assert("webm"@.len() != "mpeg2-transport-stream"@.len());
    }
    assert(n != "movie"@) by {
        assert("webm"@.len() != "movie"@.len());
    }
    assert(n != "quicktime-movie"@) by {
        assert("webm"@.len() != "quicktime-movie"@.len());
    }
    assert(n != "mp4-movie"@) by {
        assert("webm"@.len() != "mp4-movie"@.len());
    }
    assert(n != "apple-protected-mp4-video"@) by {
        assert("webm"@.len() != "apple-protected-mp4-video"@.len());
    }
    assert(n != "mpeg"@) by {
        assert("webm"@[0] != "mpeg"@[0]);
    }
    assert(n != "mpeg2-video"@) by {
        assert("webm"@.len() != "mpeg2-video"@.len());
    }
    assert(n != "avi"@) by {
        assert("webm"@.len() != "avi"@.len());
    }
    assert(n != "dv-movie"@) by {
        assert("webm"@.len() != "dv-movie"@.len());
    }
    assert(n != "real-media"@) by {
        assert("webm"@.len() != "real-media"@.len());
    }
    assert(n != "real-audio"@) by {
        assert("webm"@.len() != "real-audio"@.len());
    }
    assert(parse_spec(n) == Some(SuperType::Webm));
}

proof fn lemma_display_parse_matroska()
    ensures
        parse_spec(normalized(name_spec(SuperType::Matroska))) == Some(SuperType::Matroska),
{
    reveal_strlit("matroska");
    reveal_strlit("text");
    reveal_strlit("plain-text");
    reveal_strlit("csv");
    reveal_strlit("json");
    reveal_strlit("xml");
    reveal_strlit("yaml");
    reveal_strlit("html");
    reveal_strlit("markdown");
    reveal_strlit("rtf");
    reveal_strlit("image");
    reveal_strlit("raw-image");
    reveal_strlit("png");
    reveal_strlit("jpeg");
    reveal_strlit("gif");
    reveal_strlit("tiff");
    reveal_strlit("svg");
    reveal_strlit("webp");
    reveal_strlit("heic");
    reveal_strlit("heif");
    reveal_strlit("bmp");
    reveal_strlit("audio");
    reveal_strlit("mp3");
    reveal_strlit("wav");
    reveal_strlit("aiff");
    reveal_strlit("midi");
    reveal_strlit("mp4-audio");
    reveal_strlit("apple-protected-mp4-audio");
    reveal_strlit("flac");
    reveal_strlit("ogg-audio");
    reveal_strlit("ac3-audio");
    reveal_strlit("aac-audio");
    reveal_strlit("video");
    reveal_strlit("mpeg2-transport-stream");
    reveal_strlit("movie");
    reveal_strlit("quicktime-movie");
    reveal_strlit("mp4-movie");
    reveal_strlit("apple-protected-mp4-video");
    reveal_strlit("mpeg");
    reveal_strlit("mpeg2-video");
    reveal_strlit("avi");
    reveal_strlit("dv-movie");
    reveal_strlit("real-media");
    reveal_strlit("real-audio");
    reveal_strlit("webm");
    assert(normalized(name_spec(SuperType::Matroska)) =~= "matroska"@);
    let n = normalized(name_spec(SuperType::Matroska));
    assert(n != "text"@) by {
        assert("matroska"@.len() != "text"@.len());
    }
    assert(n != "plain-text"@) by {
        assert("matroska"@.len() != "plain-text"@.len());
    }
    assert(n != "csv"@) by {
        assert("matroska"@.len() != "csv"@.len());
    }
    assert(n != "json"@) by {
        assert("matroska"@.len() != "json"@.len());
    }
    assert(n != "xml"@) by {
        assert("matroska"@.len() != "xml"@.len());
    }
    assert(n != "yaml"@) by {
        assert("matroska"@.len() != "yaml"@.len());
    }
    assert(n != "html"@) by {
        assert("matroska"@.len() != "html"@.len());
    }
    assert(n != "markdown"@) by {
        assert("matroska"@[2] != "markdown"@[2]);
    }
    assert(n != "rtf"@) by {
        assert("matroska"@.len() != "rtf"@.len());
    }
    assert(n != "image"@) by {
        assert("matroska"@.len() != "image"@.len());
    }
    assert(n != "raw-image"@) by {
        assert("matroska"@.len() != "raw-image"@.len());
    }
    assert(n != "png"@) by {
        assert("matroska"@.len() != "png"@.len());
    }
    assert(n != "jpeg"@) by {
        assert("matroska"@.len() != "jpeg"@.len());
    }
    assert(n != "gif"@) by {
        assert("matroska"@.len() != "gif"@.len());
    }
    assert(n != "tiff"@) by {
        assert("matroska"@.len() != "tiff"@.len());
    }
    assert(n != "svg"@) by {
        assert("matroska"@.len() != "svg"@.len());
    }
    assert(n != "webp"@) by {
        assert("matroska"@.len() != "webp"@.len());
    }
    assert(n != "heic"@) by {
        assert("matroska"@.len() != "heic"@.len());
    }
    assert(n != "heif"@) by {
        assert("matroska"@.len() != "heif"@.len());
    }
    assert(n != "bmp"@) by {
        assert("matroska"@.len() != "bmp"@.len());
    }
    assert(n != "audio"@) by {
        assert("matroska"@.len() != "audio"@.len());
    }
    assert(n != "mp3"@) by {
        assert("matroska"@.len() != "mp3"@.len());
    }
    assert(n != "wav"@) by {
        assert("matroska"@.len() != "wav"@.len());
    }
    assert(n != "aiff"@) by {
        assert("matroska"@.len() != "aiff"@.len());
    }
    assert(n != "midi"@) by {
        assert("matroska"@.len() != "midi"@.len());
    }
    assert(n != "mp4-audio"@) by {
        assert("matroska"@.len() != "mp4-audio"@.len());
    }
    assert(n != "apple-protected-mp4-audio"@) by {
        assert("matroska"@.len() != "apple-protected-mp4-audio"@.len());
    }
    assert(n != "flac"@) by {
        assert("matroska"@.len() != "flac"@.len());
    }
    assert(n != "ogg-audio"@) by {
        assert("matroska"@.len() != "ogg-audio"@.len());
    }
    assert(n != "ac3-audio"@) by {
        assert("matroska"@.len() != "ac3-audio"@.len());
    }
    assert(n != "aac-audio"@) by {
        assert("matroska"@.len() != "aac-audio"@.len());
    }
    assert(n != "video"@) by {
        assert("matroska"@.len() != "video"@.len());
    }
    assert(n != "mpeg2-transport-stream"@) by {
        assert("matroska"@.len() != "mpeg2-transport-stream"@.len());
    }
    assert(n != "movie"@) by {
        assert("matroska"@.len() != "movie"@.len());
    }
    assert(n != "quicktime-movie"@) by {
        assert("matroska"@.len() != "quicktime-movie"@.len());
    }
    assert(n != "mp4-movie"@) by {
        assert("matroska"@.len() != "mp4-movie"@.len());
    }
    assert(n != "apple-protected-mp4-video"@) by {
        assert("matroska"@.len() != "apple-protected-mp4-video"@.len());
    }
    assert(n != "mpeg"@) by {
        assert("matroska"@.len() != "mpeg"@.len());
    }
    assert(n != "mpeg2-video"@) by {
        assert("matroska"@.len() != "mpeg2-video"@.len());
    }
    assert(n != "avi"@) by {
        assert("matroska"@.len() != "avi"@.len());
    }
    assert(n != "dv-movie"@) by {
        assert("matroska"@[0] != "dv-movie"@[0]);
    }
    assert(n != "real-media"@) by {
        assert("matroska"@.len() != "real-media"@.len());
    }
    assert(n != "real-audio"@) by {
        assert("matroska"@.len() != "real-audio"@.len());
    }
    assert(n != "webm"@) by {
        assert("matroska"@.len() != "webm"@.len());
    }
    assert(parse_spec(n) == Some(SuperType::Matroska));
}

proof fn lemma_display_parse_m3uplaylist()
    ensures
        parse_spec(normalized(name_spec(SuperType::M3uPlaylist))) == Some(SuperType::M3uPlaylist),
{
    reveal_strlit("m3u-playlist");
    reveal_strlit("text");
    reveal_strlit("plain-text");
    reveal_strlit("csv");
    reveal_strlit("json");
    reveal_strlit("xml");
    reveal_strlit("yaml");
    reveal_strlit("html");
    reveal_strlit("markdown");
    reveal_strlit("rtf");
    reveal_strlit("image");
    reveal_strlit("raw-image");
    reveal_strlit("png");
    reveal_strlit("jpeg");
    reveal_strlit("gif");
    reveal_strlit("tiff");
    reveal_strlit("svg");
    reveal_strlit("webp");
    reveal_strlit("heic");
    reveal_strlit("heif");
    reveal_strlit("bmp");
    reveal_strlit("audio");
    reveal_strlit("mp3");
    reveal_strlit("wav");
    reveal_strlit("aiff");
    reveal_strlit("midi");
    reveal_strlit("mp4-audio");
    reveal_strlit("apple-protected-mp4-audio");
    reveal_strlit("flac");
    reveal_strlit("ogg-audio");
    reveal_strlit("ac3-audio");
    reveal_strlit("aac-audio");
    reveal_strlit("video");
    reveal_strlit("mpeg2-transport-stream");
    reveal_strlit("movie");
    reveal_strlit("quicktime-movie");
    reveal_strlit("mp4-movie");
    reveal_strlit("apple-protected-mp4-video");
    reveal_strlit("mpeg");
    reveal_strlit("mpeg2-video");
    reveal_strlit("avi");
    reveal_strlit("dv-movie");
    reveal_strlit("real-media");
    reveal_strlit("real-audio");
    reveal_strlit("webm");
    reveal_strlit("matroska");
    assert(normalized(name_spec(SuperType::M3uPlaylist)) =~= "m3u-playlist"@);
    let n = normalized(name_spec(SuperType::M3uPlaylist));
    assert(n != "text"@) by {
        assert("m3u-playlist"@.len() != "text"@.len());
    }
    assert(n != "plain-text"@) by {
        assert("m3u-playlist"@.len() != "plain-text"@.len());
    }
    assert(n != "csv"@) by {
        assert("m3u-playlist"@.len() != "csv"@.len());
    }
    assert(n != "json"@) by {
        assert("m3u-playlist"@.len() != "json"@.len());
    }
    assert(n != "xml"@) by {
        assert("m3u-playlist"@.len() != "xml"@.len());
    }
    assert(n != "yaml"@) by {
        assert("m3u-playlist"@.len() != "yaml"@.len());
    }
    assert(n != "html"@) by {
        assert("m3u-playlist"@.len() != "html"@.len());
    }
    assert(n != "markdown"@) by {
        assert("m3u-playlist"@.len() != "markdown"@.len());
    }
    assert(n != "rtf"@) by {
        assert("m3u-playlist"@.len() != "rtf"@.len());
    }
    assert(n != "image"@) by {
        assert("m3u-playlist"@.len() != "image"@.len());
    }
    assert(n != "raw-image"@) by {
        assert("m3u-playlist"@.len() != "raw-image"@.len());
    }
    assert(n != "png"@) by {
        assert("m3u-playlist"@.len() != "png"@.len());
    }
    assert(n != "jpeg"@) by {
        assert("m3u-playlist"@.len() != "jpeg"@.len());
    }
    assert(n != "gif"@) by {
        assert("m3u-playlist"@.len() != "gif"@.len());
    }
    assert(n != "tiff"@) by {
        assert("m3u-playlist"@.len() != "tiff"@.len());
    }
    assert(n != "svg"@) by {
        assert("m3u-playlist"@.len() != "svg"@.len());
    }
    assert(n != "webp"@) by {
        assert("m3u-playlist"@.len() != "webp"@.len());
    }
    assert(n != "heic"@) by {
        assert("m3u-playlist"@.len() != "heic"@.len());
    }
    assert(n != "heif"@) by {
        assert("m3u-playlist"@.len() != "heif"@.len());
    }
    assert(n != "bmp"@) by {
        assert("m3u-playlist"@.len() != "bmp"@.len());
    }
    assert(n != "audio"@) by {
        assert("m3u-playlist"@.len() != "audio"@.len());
    }
    assert(n != "mp3"@) by {
        assert("m3u-playlist"@.len() != "mp3"@.len());
    }
    assert(n != "wav"@) by {
        assert("m3u-playlist"@.len() != "wav"@.len());
    }
    assert(n != "aiff"@) by {
        assert("m3u-playlist"@.len() != "aiff"@.len());
    }
    assert(n != "midi"@) by {
        assert("m3u-playlist"@.len() != "midi"@.len());
    }
    assert(n != "mp4-audio"@) by {
        assert("m3u-playlist"@.len() != "mp4-audio"@.len());
    }
    assert(n != "apple-protected-mp4-audio"@) by {
        assert("m3u-playlist"@.len() != "apple-protected-mp4-audio"@.len());
    }
    assert(n != "flac"@) by {
        assert("m3u-playlist"@.len() != "flac"@.len());
    }
    assert(n != "ogg-audio"@) by {
        assert("m3u-playlist"@.len() != "ogg-audio"@.len());
    }
    assert(n != "ac3-audio"@) by {
        assert("m3u-playlist"@.len() != "ac3-audio"@.len());
    }
    assert(n != "aac-audio"@) by {
        assert("m3u-playlist"@.len() != "aac-audio"@.len());
    }
    assert(n != "video"@) by {
        assert("m3u-playlist"@.len() != "video"@.len());
    }
    assert(n != "mpeg2-transport-stream"@) by {
        assert("m3u-playlist"@.len() != "mpeg2-transport-stream"@.len());
    }
    assert(n != "movie"@) by {
        assert("m3u-playlist"@.len() != "movie"@.len());
    }
    assert(n != "quicktime-movie"@) by {
        assert("m3u-playlist"@.len() != "quicktime-movie"@.len());
    }
    assert(n != "mp4-movie"@) by {
        assert("m3u-playlist"@.len() != "mp4-movie"@.len());
    }
    assert(n != "apple-protected-mp4-video"@) by {
        assert("m3u-playlist"@.len() != "apple-protected-mp4-video"@.len());
    }
    assert(n != "mpeg"@) by {
        assert("m3u-playlist"@.len() != "mpeg"@.len());
    }
    assert(n != "mpeg2-video"@) by {
        assert("m3u-playlist"@.len() != "mpeg2-video"@.len());
    }
    assert(n != "avi"@) by {
        assert("m3u-playlist"@.len() != "avi"@.len());
    }
    assert(n != "dv-movie"@) by {
        assert("m3u-playlist"@.len() != "dv-movie"@.len());
    }
    assert(n != "real-media"@) by {
        assert("m3u-playlist"@.len() != "real-media"@.len());
    }
    assert(n != "real-audio"@) by {
        assert("m3u-playlist"@.len() != "real-audio"@.len());
    }
    assert(n != "webm"@) by {
        assert("m3u-playlist"@.len() != "webm"@.len());
    }
    assert(n != "matroska"@) by {
        assert("m3u-playlist"@.len() != "matroska"@.len());
    }
    assert(parse_spec(n) == Some(SuperType::M3uPlaylist));
}

proof fn lemma_display_parse_archive()
    ensures
        parse_spec(normalized(name_spec(SuperType::Archive))) == Some(SuperType::Archive),
{
    reveal_strlit("archive");
    reveal_strlit("text");
    reveal_strlit("plain-text");
    reveal_strlit("csv");
    reveal_strlit("json");
    reveal_strlit("xml");
    reveal_strlit("yaml");
    reveal_strlit("html");
    reveal_strlit("markdown");
    reveal_strlit("rtf");
    reveal_strlit("image");
    reveal_strlit("raw-image");
    reveal_strlit("png");
    reveal_strlit("jpeg");
    reveal_strlit("gif");
    reveal_strlit("tiff");
    reveal_strlit("svg");
    reveal_strlit("webp");
    reveal_strlit("heic");
    reveal_strlit("heif");
    reveal_strlit("bmp");
    reveal_strlit("audio");
    reveal_strlit("mp3");
    reveal_strlit("wav");
    reveal_strlit("aiff");
    reveal_strlit("midi");
    reveal_strlit("mp4-audio");
    reveal_strlit("apple-protected-mp4-audio");
    reveal_strlit("flac");
    reveal_strlit("ogg-audio");
    reveal_strlit("ac3-audio");
    reveal_strlit("aac-audio");
    reveal_strlit("video");
    reveal_strlit("mpeg2-transport-stream");
    reveal_strlit("movie");
    reveal_strlit("quicktime-movie");
    reveal_strlit("mp4-movie");
    reveal_strlit("apple-protected-mp4-video");
    reveal_strlit("mpeg");
    reveal_strlit("mpeg2-video");
    reveal_strlit("avi");
    reveal_strlit("dv-movie");
    reveal_strlit("real-media");
    reveal_strlit("real-audio");
    reveal_strlit("webm");
    reveal_strlit("matroska");
    reveal_strlit("m3u-playlist");
    assert(normalized(name_spec(SuperType::Archive)) =~= "archive"@);
    let n = normalized(name_spec(SuperType::Archive));
    assert(n != "text"@) by {
        assert("archive"@.len() != "text"@.len());
    }
    assert(n != "plain-text"@) by {
        assert("archive"@.len() != "plain-text"@.len());
    }
    assert(n != "csv"@) by {
        assert("archive"@.len() != "csv"@.len());
    }
    assert(n != "json"@) by {
        assert("archive"@.len() != "json"@.len());
    }
    assert(n != "xml"@) by {
        assert("archive"@.len() != "xml"@.len());
    }
    assert(n != "yaml"@) by {
        assert("archive"@.len() != "yaml"@.len());
    }
    assert(n != "html"@) by {
        assert("archive"@.len() != "html"@.len());
    }
    assert(n != "markdown"@) by {
        assert("archive"@.len() != "markdown"@.len());
    }
    assert(n != "rtf"@) by {
        assert("archive"@.len() != "rtf"@.len());
    }
    assert(n != "image"@) by {
        assert("archive"@.len() != "image"@.len());
    }
    assert(n != "raw-image"@) by {
        assert("archive"@.len() != "raw-image"@.len());
    }
    assert(n != "png"@) by {
        assert("archive"@.len() != "png"@.len());
    }
    assert(n != "jpeg"@) by {
        assert("archive"@.len() != "jpeg"@.len());
    }
    assert(n != "gif"@) by {
        assert("archive"@.len() != "gif"@.len());
    }
    assert(n != "tiff"@) by {
        assert("archive"@.len() != "tiff"@.len());
    }
    assert(n != "svg"@) by {
        assert("archive"@.len() != "svg"@.len());
    }
    assert(n != "webp"@) by {
        assert("archive"@.len() != "webp"@.len());
    }
    assert(n != "heic"@) by {
        assert("archive"@.len() != "heic"@.len());
    }
    assert(n != "heif"@) by {
        assert("archive"@.len() != "heif"@.len());
    }
    assert(n != "bmp"@) by {
        assert("archive"@.len() != "bmp"@.len());
    }
    assert(n != "audio"@) by {
        assert("archive"@.len() != "audio"@.len());
    }
    assert(n != "mp3"@) by {
        assert("archive"@.len() != "mp3"@.len());
    }
    assert(n != "wav"@) by {
        assert("archive"@.len() != "wav"@.len());
    }
    assert(n != "aiff"@) by {
        assert("archive"@.len() != "aiff"@.len());
    }
    assert(n != "midi"@) by {
        assert("archive"@.len() != "midi"@.len());
    }
    assert(n != "mp4-audio"@) by {
        assert("archive"@.len() != "mp4-audio"@.len());
    }
    assert(n != "apple-protected-mp4-audio"@) by {
        assert("archive"@.len() != "apple-protected-mp4-audio"@.len());
    }
    assert(n != "flac"@) by {
        assert("archive"@.len() != "flac"@.len());
    }
    assert(n != "ogg-audio"@) by {
        assert("archive"@.len() != "ogg-audio"@.len());
    }
    assert(n != "ac3-audio"@) by {
        assert("archive"@.len() != "ac3-audio"@.len());
    }
    assert(n != "aac-audio"@) by {
        assert("archive"@.len() != "aac-audio"@.len());
    }
    assert(n != "video"@) by {
        assert("archive"@.len() != "video"@.len());
    }
    assert(n != "mpeg2-transport-stream"@) by {
        assert("archive"@.len() != "mpeg2-transport-stream"@.len());
    }
    assert(n != "movie"@) by {
        assert("archive"@.len() != "movie"@.len());
    }
    assert(n != "quicktime-movie"@) by {
        assert("archive"@.len() != "quicktime-movie"@.len());
    }
    assert(n != "mp4-movie"@) by {
        assert("archive"@.len() != "mp4-movie"@.len());
    }
    assert(n != "apple-protected-mp4-video"@) by {
        assert("archive"@.len() != "apple-protected-mp4-video"@.len());
    }
    assert(n != "mpeg"@) by {
        assert("archive"@.len() != "mpeg"@.len());
    }
    assert(n != "mpeg2-video"@) by {
        assert("archive"@.len() != "mpeg2-video"@.len());
    }
    assert(n != "avi"@) by {
        assert("archive"@.len() != "avi"@.len());
    }
    assert(n != "dv-movie"@) by {
        assert("archive"@.len() != "dv-movie"@.len());
    }
    assert(n != "real-media"@) by {
        assert("archive"@.len() != "real-media"@.len());
    }
    assert(n != "real-audio"@) by {
        assert("archive"@.len() != "real-audio"@.len());
    }
    assert(n != "webm"@) by {
        assert("archive"@.len() != "webm"@.len());
    }
    assert(n != "matroska"@) by {
        assert("archive"@.len() != "matroska"@.len());
    }
    assert(n != "m3u-playlist"@) by {
        assert("archive"@.len() != "m3u-playlist"@.len());
    }
    assert(parse_spec(n) == Some(SuperType::Archive));
}

proof fn lemma_display_parse_zip()
    ensures
        parse_spec(normalized(name_spec(SuperType::Zip))) == Some(SuperType::Zip),
{
    reveal_strlit("zip");
    reveal_strlit("text");
    reveal_strlit("plain-text");
    reveal_strlit("csv");
    reveal_strlit("json");
    reveal_strlit("xml");
    reveal_strlit("yaml");
    reveal_strlit("html");
    reveal_strlit("markdown");
    reveal_strlit("rtf");
    reveal_strlit("image");
    reveal_strlit("raw-image");
    reveal_strlit("png");
    reveal_strlit("jpeg");
    reveal_strlit("gif");
    reveal_strlit("tiff");
    reveal_strlit("svg");
    reveal_strlit("webp");
    reveal_strlit("heic");
    reveal_strlit("heif");
    reveal_strlit("bmp");
    reveal_strlit("audio");
    reveal_strlit("mp3");
    reveal_strlit("wav");
    reveal_strlit("aiff");
    reveal_strlit("midi");
    reveal_strlit("mp4-audio");
    reveal_strlit("apple-protected-mp4-audio");
    reveal_strlit("flac");
    reveal_strlit("ogg-audio");
    reveal_strlit("ac3-audio");
    reveal_strlit("aac-audio");
    reveal_strlit("video");
    reveal_strlit("mpeg2-transport-stream");
    reveal_strlit("movie");
    reveal_strlit("quicktime-movie");
    reveal_strlit("mp4-movie");
    reveal_strlit("apple-protected-mp4-video");
    reveal_strlit("mpeg");
    reveal_strlit("mpeg2-video");
    reveal_strlit("avi");
    reveal_strlit("dv-movie");
    reveal_strlit("real-media");
    reveal_strlit("real-audio");
    reveal_strlit("webm");
    reveal_strlit("matroska");
    reveal_strlit("m3u-playlist");
    reveal_strlit("archive");
    assert(normalized(name_spec(SuperType::Zip)) =~= "zip"@);
    let n = normalized(name_spec(SuperType::Zip));
    assert(n != "text"@) by {
        assert("zip"@.len() != "text"@.len());
    }
    assert(n != "plain-text"@) by {
        assert("zip"@.len() != "plain-text"@.len());
    }
    assert(n != "csv"@) by {
        assert("zip"@[0] != "csv"@[0]);
    }
    assert(n != "json"@) by {
        assert("zip"@.len() != "json"@.len());
    }
    assert(n != "xml"@) by {
        assert("zip"@[0] != "xml"@[0]);
    }
    assert(n != "yaml"@) by {
        assert("zip"@.len() != "yaml"@.len());
    }
    assert(n != "html"@) by {
        assert("zip"@.len() != "html"@.len());
    }
    assert(n != "markdown"@) by {
        assert("zip"@.len() != "markdown"@.len());
    }
    assert(n != "rtf"@) by {
        assert("zip"@[0] != "rtf"@[0]);
    }
    assert(n != "image"@) by {
        assert("zip"@.len() != "image"@.len());
    }
    assert(n != "raw-image"@) by {
        assert("zip"@.len() != "raw-image"@.len());
    }
    assert(n != "png"@) by {
        assert("zip"@[0] != "png"@[0]);
    }
    assert(n != "jpeg"@) by {
        assert("zip"@.len() != "jpeg"@.len());
    }
    assert(n != "gif"@) by {
        assert("zip"@[0] != "gif"@[0]);
    }
    assert(n != "tiff"@) by {
        assert("zip"@.len() != "tiff"@.len());
    }
    assert(n != "svg"@) by {
        assert("zip"@[0] != "svg"@[0]);
    }
    assert(n != "webp"@) by {
        assert("zip"@.len() != "webp"@.len());
    }
    assert(n != "heic"@) by {
        assert("zip"@.len() != "heic"@.len());
    }
    assert(n != "heif"@) by {
        assert("zip"@.len() != "heif"@.len());
    }
    assert(n != "bmp"@) by {
        assert("zip"@[0] != "bmp"@[0]);
    }
    assert(n != "audio"@) by {
        assert("zip"@.len() != "audio"@.len());
    }
    assert(n != "mp3"@) by {
        assert("zip"@[0] != "mp3"@[0]);
    }
    assert(n != "wav"@) by {
        assert("zip"@[0] != "wav"@[0]);
    }
    assert(n != "aiff"@) by {
        assert("zip"@.len() != "aiff"@.len());
    }
    assert(n != "midi"@) by {
        assert("zip"@.len() != "midi"@.len());
    }
    assert(n != "mp4-audio"@) by {
        assert("zip"@.len() != "mp4-audio"@.len());
    }
    assert(n != "apple-protected-mp4-audio"@) by {
        assert("zip"@.len() != "apple-protected-mp4-audio"@.len());
    }
    assert(n != "flac"@) by {
        assert("zip"@.len() != "flac"@.len());
    }
    assert(n != "ogg-audio"@) by {
        assert("zip"@.len() != "ogg-audio"@.len());
    }
    assert(n != "ac3-audio"@) by {
        assert("zip"@.len() != "ac3-audio"@.len());
    }
    assert(n != "aac-audio"@) by {
        assert("zip"@.len() != "aac-audio"@.len());
    }
    assert(n != "video"@) by {
        assert("zip"@.len() != "video"@.len());
    }
    assert(n != "mpeg2-transport-stream"@) by {
        assert("zip"@.len() != "mpeg2-transport-stream"@.len());
    }
    assert(n != "movie"@) by {
        assert("zip"@.len() != "movie"@.len());
    }
    assert(n != "quicktime-movie"@) by {
        assert("zip"@.len() != "quicktime-movie"@.len());
    }
    assert(n != "mp4-movie"@) by {
        assert("zip"@.len() != "mp4-movie"@.len());
    }
    assert(n != "apple-protected-mp4-video"@) by {
        assert("zip"@.len() != "apple-protected-mp4-video"@.len());
    }
    assert(n != "mpeg"@) by {
        assert("zip"@.len() != "mpeg"@.len());
    }
    assert(n != "mpeg2-video"@) by {
        assert("zip"@.len() != "mpeg2-video"@.len());
    }
    assert(n != "avi"@) by {
        assert("zip"@[0] != "avi"@[0]);
    }
    assert(n != "dv-movie"@) by {
        assert("zip"@.len() != "dv-movie"@.len());
    }
    assert(n != "real-media"@) by {
        assert("zip"@.len() != "real-media"@.len());
    }
    assert(n != "real-audio"@) by {
        assert("zip"@.len() != "real-audio"@.len());
    }
    assert(n != "webm"@) by {
        assert("zip"@.len() != "webm"@.len());
    }
    assert(n != "matroska"@) by {
        assert("zip"@.len() != "matroska"@.len());
    }
    assert(n != "m3u-playlist"@) by {
        assert("zip"@.len() != "m3u-playlist"@.len());
    }
    assert(n != "archive"@) by {
        assert("zip"@.len() != "archive"@.len());
    }
    assert(parse_spec(n) == Some(SuperType::Zip));
}

proof fn lemma_display_parse_gzip()
    ensures
        parse_spec(normalized(name_spec(SuperType::Gzip))) == Some(SuperType::Gzip),
{
    reveal_strlit("gzip");
    reveal_strlit("text");
    reveal_strlit("plain-text");
    reveal_strlit("csv");
    reveal_strlit("json");
    reveal_strlit("xml");
    reveal_strlit("yaml");
    reveal_strlit("html");
    reveal_strlit("markdown");
    reveal_strlit("rtf");
    reveal_strlit("image");
    reveal_strlit("raw-image");
    reveal_strlit("png");
    reveal_strlit("jpeg");
    reveal_strlit("gif");
    reveal_strlit("tiff");
    reveal_strlit("svg");
    reveal_strlit("webp");
    reveal_strlit("heic");
    reveal_strlit("heif");
    reveal_strlit("bmp");
    reveal_strlit("audio");
    reveal_strlit("mp3");
    reveal_strlit("wav");
    reveal_strlit("aiff");
    reveal_strlit("midi");
    reveal_strlit("mp4-audio");
    reveal_strlit("apple-protected-mp4-audio");
    reveal_strlit("flac");
    reveal_strlit("ogg-audio");
    reveal_strlit("ac3-audio");
    reveal_strlit("aac-audio");
    reveal_strlit("video");
    reveal_strlit("mpeg2-transport-stream");
    reveal_strlit("movie");
    reveal_strlit("quicktime-movie");
    reveal_strlit("mp4-movie");
    reveal_strlit("apple-protected-mp4-video");
    reveal_strlit("mpeg");
    reveal_strlit("mpeg2-video");
    reveal_strlit("avi");
    reveal_strlit("dv-movie");
    reveal_strlit("real-media");
    reveal_strlit("real-audio");
    reveal_strlit("webm");
    reveal_strlit("matroska");
    reveal_strlit("m3u-playlist");
    reveal_strlit("archive");
    reveal_strlit("zip");
    assert(normalized(name_spec(SuperType::Gzip)) =~= "gzip"@);
    let n = normalized(name_spec(SuperType::Gzip));
    assert(n != "text"@) by {
        assert("gzip"@[0] != "text"@[0]);
    }
    assert(n != "plain-text"@) by {
        assert("gzip"@.len() != "plain-text"@.len());
    }
    assert(n != "csv"@) by {
        assert("gzip"@.len() != "csv"@.len());
    }
    assert(n != "json"@) by {
        assert("gzip"@[0] != "json"@[0]);
    }
    assert(n != "xml"@) by {
        assert("gzip"@.len() != "xml"@.len());
    }
    assert(n != "yaml"@) by {
        assert("gzip"@[0] != "yaml"@[0]);
    }
    assert(n != "html"@) by {
        assert("gzip"@[0] != "html"@[0]);
    }
    assert(n != "markdown"@) by {
        assert("gzip"@.len() != "markdown"@.len());
    }
    assert(n != "rtf"@) by {
        assert("gzip"@.len() != "rtf"@.len());
    }
    assert(n != "image"@) by {
        assert("gzip"@.len() != "image"@.len());
    }
    assert(n != "raw-image"@) by {
        assert("gzip"@.len() != "raw-image"@.len());
    }
    assert(n != "png"@) by {
        assert("gzip"@.len() != "png"@.len());
    }
    assert(n != "jpeg"@) by {
        assert("gzip"@[0] != "jpeg"@[0]);
    }
    assert(n != "gif"@) by {
        assert("gzip"@.len() != "gif"@.len());
    }
    assert(n != "tiff"@) by {
        assert("gzip"@[0] != "tiff"@[0]);
    }
    assert(n != "svg"@) by {
        assert("gzip"@.len() != "svg"@.len());
    }
    assert(n != "webp"@) by {
        assert("gzip"@[0] != "webp"@[0]);
    }
    assert(n != "heic"@) by {
        assert("gzip"@[0] != "heic"@[0]);
    }
    assert(n != "heif"@) by {
        assert("gzip"@[0] != "heif"@[0]);
    }
    assert(n != "bmp"@) by {
        assert("gzip"@.len() != "bmp"@.len());
    }
    assert(n != "audio"@) by {
        assert("gzip"@.len() != "audio"@.len());
    }
    assert(n != "mp3"@) by {
        assert("gzip"@.len() != "mp3"@.len());
    }
    assert(n != "wav"@) by {
        assert("gzip"@.len() != "wav"@.len());
    }
    assert(n != "aiff"@) by {
        assert("gzip"@[0] != "aiff"@[0]);
    }
    assert(n != "midi"@) by {
        assert("gzip"@[0] != "midi"@[0]);
    }
    assert(n != "mp4-audio"@) by {
        assert("gzip"@.len() != "mp4-audio"@.len());
    }
    assert(n != "apple-protected-mp4-audio"@) by {
        assert("gzip"@.len() != "apple-protected-mp4-audio"@.len());
    }
    assert(n != "flac"@) by {
        assert("gzip"@[0] != "flac"@[0]);
    }
    assert(n != "ogg-audio"@) by {
        assert("gzip"@.len() != "ogg-audio"@.len());
    }
    assert(n != "ac3-audio"@) by {
        assert("gzip"@.len() != "ac3-audio"@.len());
    }
    assert(n != "aac-audio"@) by {
        assert("gzip"@.len() != "aac-audio"@.len());
    }
    assert(n != "video"@) by {
        assert("gzip"@.len() != "video"@.len());
    }
    assert(n != "mpeg2-transport-stream"@) by {
        assert("gzip"@.len() != "mpeg2-transport-stream"@.len());
    }
    assert(n != "movie"@) by {
        assert("gzip"@.len() != "movie"@.len());
    }
    assert(n != "quicktime-movie"@) by {
        assert("gzip"@.len() != "quicktime-movie"@.len());
    }
    assert(n != "mp4-movie"@) by {
        assert("gzip"@.len() != "mp4-movie"@.len());
    }
    assert(n != "apple-protected-mp4-video"@) by {
        assert("gzip"@.len() != "apple-protected-mp4-video"@.len());
    }
    assert(n != "mpeg"@) by {
        assert("gzip"@[0] != "mpeg"@[0]);
    }
    assert(n != "mpeg2-video"@) by {
        assert("gzip"@.len() != "mpeg2-video"@.len());
    }
    assert(n != "avi"@) by {
        assert("gzip"@.len() != "avi"@.len());
    }
    assert(n != "dv-movie"@) by {
        assert("gzip"@.len() != "dv-movie"@.len());
    }
    assert(n != "real-media"@) by {
        assert("gzip"@.len() != "real-media"@.len());
    }
    assert(n != "real-audio"@) by {
        assert("gzip"@.len() != "real-audio"@.len());
    }
    assert(n != "webm"@) by {
        assert("gzip"@[0] != "webm"@[0]);
    }
    assert(n != "matroska"@) by {
        assert("gzip"@.len() != "matroska"@.len());
    }
    assert(n != "m3u-playlist"@) by {
        assert("gzip"@.len() != "m3u-playlist"@.len());
    }
    assert(n != "archive"@) by {
        assert("gzip"@.len() != "archive"@.len());
    }
    assert(n != "zip"@) by {
        assert("gzip"@.len() != "zip"@.len());
    }
    assert(parse_spec(n) == Some(SuperType::Gzip));
}

proof fn lemma_display_parse_tar()
    ensures
        parse_spec(normalized(name_spec(SuperType::Tar))) == Some(SuperType::Tar),
{
    reveal_strlit("tar");
    reveal_strlit("text");
    reveal_strlit("plain-text");
    reveal_strlit("csv");
    reveal_strlit("json");
    reveal_strlit("xml");
    reveal_strlit("yaml");
    reveal_strlit("html");
    reveal_strlit("markdown");
    reveal_strlit("rtf");
    reveal_strlit("image");
    reveal_strlit("raw-image");
    reveal_strlit("png");
    reveal_strlit("jpeg");
    reveal_strlit("gif");
    reveal_strlit("tiff");
    reveal_strlit("svg");
    reveal_strlit("webp");
    reveal_strlit("heic");
    reveal_strlit("heif");
    reveal_strlit("bmp");
    reveal_strlit("audio");
    reveal_strlit("mp3");
    reveal_strlit("wav");
    reveal_strlit("aiff");
    reveal_strlit("midi");
    reveal_strlit("mp4-audio");
    reveal_strlit("apple-protected-mp4-audio");
    reveal_strlit("flac");
    reveal_strlit("ogg-audio");
    reveal_strlit("ac3-audio");
    reveal_strlit("aac-audio");
    reveal_strlit("video");
    reveal_strlit("mpeg2-transport-stream");
    reveal_strlit("movie");
    reveal_strlit("quicktime-movie");
    reveal_strlit("mp4-movie");
    reveal_strlit("apple-protected-mp4-video");
    reveal_strlit("mpeg");
    reveal_strlit("mpeg2-video");
    reveal_strlit("avi");
    reveal_strlit("dv-movie");
    reveal_strlit("real-media");
    reveal_strlit("real-audio");
    reveal_strlit("webm");
    reveal_strlit("matroska");
    reveal_strlit("m3u-playlist");
    reveal_strlit("archive");
    reveal_strlit("zip");
    reveal_strlit("gzip");
    assert(normalized(name_spec(SuperType::Tar)) =~= "tar"@);
    let n = normalized(name_spec(SuperType::Tar));
    assert(n != "text"@) by {
        assert("tar"@.len() != "text"@.len());
    }
    assert(n != "plain-text"@) by {
        assert("tar"@.len() != "plain-text"@.len());
    }
    assert(n != "csv"@) by {
        assert("tar"@[0] != "csv"@[0]);
    }
    assert(n != "json"@) by {
        assert("tar"@.len() != "json"@.len());
    }
    assert(n != "xml"@) by {
        assert("tar"@[0] != "xml"@[0]);
    }
    assert(n != "yaml"@) by {
        assert("tar"@.len() != "yaml"@.len());
    }
    assert(n != "html"@) by {
        assert("tar"@.len() != "html"@.len());
    }
    assert(n != "markdown"@) by {
        assert("tar"@.len() != "markdown"@.len());
    }
    assert(n != "rtf"@) by {
        assert("tar"@[0] != "rtf"@[0]);
    }
    assert(n != "image"@) by {
        assert("tar"@.len() != "image"@.len());
    }
    assert(n != "raw-image"@) by {
        assert("tar"@.len() != "raw-image"@.len());
    }
    assert(n != "png"@) by {
        assert("tar"@[0] != "png"@[0]);
    }
    assert(n != "jpeg"@) by {
        assert("tar"@.len() != "jpeg"@.len());
    }
    assert(n != "gif"@) by {
        assert("tar"@[0] != "gif"@[0]);
    }
    assert(n != "tiff"@) by {
        assert("tar"@.len() != "tiff"@.len());
    }
    assert(n != "svg"@) by {
        assert("tar"@[0] != "svg"@[0]);
    }
    assert(n != "webp"@) by {
        assert("tar"@.len() != "webp"@.len());
    }
    assert(n != "heic"@) by {
        assert("tar"@.len() != "heic"@.len());
    }
    assert(n != "heif"@) by {
        assert("tar"@.len() != "heif"@.len());
    }
    assert(n != "bmp"@) by {
        assert("tar"@[0] != "bmp"@[0]);
    }
    assert(n != "audio"@) by {
        assert("tar"@.len() != "audio"@.len());
    }
    assert(n != "mp3"@) by {
        assert("tar"@[0] != "mp3"@[0]);
    }
    assert(n != "wav"@) by {
        assert("tar"@[0] != "wav"@[0]);
    }
    assert(n != "aiff"@) by {
        assert("tar"@.len() != "aiff"@.len());
    }
    assert(n != "midi"@) by {
        assert("tar"@.len() != "midi"@.len());
    }
    assert(n != "mp4-audio"@) by {
        assert("tar"@.len() != "mp4-audio"@.len());
    }
    assert(n != "apple-protected-mp4-audio"@) by {
        assert("tar"@.len() != "apple-protected-mp4-audio"@.len());
    }
    assert(n != "flac"@) by {
        assert("tar"@.len() != "flac"@.len());
    }
    assert(n != "ogg-audio"@) by {
        assert("tar"@.len() != "ogg-audio"@.len());
    }
    assert(n != "ac3-audio"@) by {
        assert("tar"@.len() != "ac3-audio"@.len());
    }
    assert(n != "aac-audio"@) by {
        assert("tar"@.len() != "aac-audio"@.len());
    }
    assert(n != "video"@) by {
        assert("tar"@.len() != "video"@.len());
    }
    assert(n != "mpeg2-transport-stream"@) by {
        assert("tar"@.len() != "mpeg2-transport-stream"@.len());
    }
    assert(n != "movie"@) by {
        assert("tar"@.len() != "movie"@.len());
    }
    assert(n != "quicktime-movie"@) by {
        assert("tar"@.len() != "quicktime-movie"@.len());
    }
    assert(n != "mp4-movie"@) by {
        assert("tar"@.len() != "mp4-movie"@.len());
    }
    assert(n != "apple-protected-mp4-video"@) by {
        assert("tar"@.len() != "apple-protected-mp4-video"@.len());
    }
    assert(n != "mpeg"@) by {
        assert("tar"@.len() != "mpeg"@.len());
    }
    assert(n != "mpeg2-video"@) by {
        assert("tar"@.len() != "mpeg2-video"@.len());
    }
    assert(n != "avi"@) by {
        assert("tar"@[0] != "avi"@[0]);
    }
    assert(n != "dv-movie"@) by {
        assert("tar"@.len() != "dv-movie"@.len());
    }
    assert(n != "real-media"@) by {
        assert("tar"@.len() != "real-media"@.len());
    }
    assert(n != "real-audio"@) by {
        assert("tar"@.len() != "real-audio"@.len());
    }
    assert(n != "webm"@) by {
        assert("tar"@.len() != "webm"@.len());
    }
    assert(n != "matroska"@) by {
        assert("tar"@.len() != "matroska"@.len());
    }
    assert(n != "m3u-playlist"@) by {
        assert("tar"@.len() != "m3u-playlist"@.len());
    }
    assert(n != "archive"@) by {
        assert("tar"@.len() != "archive"@.len());
    }
    assert(n != "zip"@) by {
        assert("tar"@[0] != "zip"@[0]);
    }
    assert(n != "gzip"@) by {
        assert("tar"@.len() != "gzip"@.len());
    }
    assert(parse_spec(n) == Some(SuperType::Tar));
}

proof fn lemma_display_parse_bz2()
    ensures
        parse_spec(normalized(name_spec(SuperType::Bz2))) == Some(SuperType::Bz2),
{
    reveal_strlit("bz2");
    reveal_strlit("text");
    reveal_strlit("plain-text");
    reveal_strlit("csv");
    reveal_strlit("json");
    reveal_strlit("xml");
    reveal_strlit("yaml");
    reveal_strlit("html");
    reveal_strlit("markdown");
    reveal_strlit("rtf");
    reveal_strlit("image");
    reveal_strlit("raw-image");
    reveal_strlit("png");
    reveal_strlit("jpeg");
    reveal_strlit("gif");
    reveal_strlit("tiff");
    reveal_strlit("svg");
    reveal_strlit("webp");
    reveal_strlit("heic");
    reveal_strlit("heif");
    reveal_strlit("bmp");
    reveal_strlit("audio");
    reveal_strlit("mp3");
    reveal_strlit("wav");
    reveal_strlit("aiff");
    reveal_strlit("midi");
    reveal_strlit("mp4-audio");
    reveal_strlit("apple-protected-mp4-audio");
    reveal_strlit("flac");
    reveal_strlit("ogg-audio");
    reveal_strlit("ac3-audio");
    reveal_strlit("aac-audio");
    reveal_strlit("video");
    reveal_strlit("mpeg2-transport-stream");
    reveal_strlit("movie");
    reveal_strlit("quicktime-movie");
    reveal_strlit("mp4-movie");
    reveal_strlit("apple-protected-mp4-video");
    reveal_strlit("mpeg");
    reveal_strlit("mpeg2-video");
    reveal_strlit("avi");
    reveal_strlit("dv-movie");
    reveal_strlit("real-media");
    reveal_strlit("real-audio");
    reveal_strlit("webm");
    reveal_strlit("matroska");
    reveal_strlit("m3u-playlist");
    reveal_strlit("archive");
    reveal_strlit("zip");
    reveal_strlit("gzip");
    reveal_strlit("tar");
    assert(normalized(name_spec(SuperType::Bz2)) =~= "bz2"@);
    let n = normalized(name_spec(SuperType::Bz2));
    assert(n != "text"@) by {
        assert("bz2"@.len() != "text"@.len());
    }
    assert(n != "plain-text"@) by {
        assert("bz2"@.len() != "plain-text"@.len());
    }
    assert(n != "csv"@) by {
        assert("bz2"@[0] != "csv"@[0]);
    }
    assert(n != "json"@) by {
        assert("bz2"@.len() != "json"@.len());
    }
    assert(n != "xml"@) by {
        assert("bz2"@[0] != "xml"@[0]);
    }
    assert(n != "yaml"@) by {
        assert("bz2"@.len() != "yaml"@.len());
    }
    assert(n != "html"@) by {
        assert("bz2"@.len() != "html"@.len());
    }
    assert(n != "markdown"@) by {
        assert("bz2"@.len() != "markdown"@.len());
    }
    assert(n != "rtf"@) by {
        assert("bz2"@[0] != "rtf"@[0]);
    }
    assert(n != "image"@) by {
        assert("bz2"@.len() != "image"@.len());
    }
    assert(n != "raw-image"@) by {
        assert("bz2"@.len() != "raw-image"@.len());
    }
    assert(n != "png"@) by {
        assert("bz2"@[0] != "png"@[0]);
    }
    assert(n != "jpeg"@) by {
        assert("bz2"@.len() != "jpeg"@.len());
    }
    assert(n != "gif"@) by {
        assert("bz2"@[0] != "gif"@[0]);
    }
    assert(n != "tiff"@) by {
        assert("bz2"@.len() != "tiff"@.len());
    }
    assert(n != "svg"@) by {
        assert("bz2"@[0] != "svg"@[0]);
    }
    assert(n != "webp"@) by {
        assert("bz2"@.len() != "webp"@.len());
    }
    assert(n != "heic"@) by {
        assert("bz2"@.len() != "heic"@.len());
    }
    assert(n != "heif"@) by {
        assert("bz2"@.len() != "heif"@.len());
    }
    assert(n != "bmp"@) by {
        assert("bz2"@[1] != "bmp"@[1]);
    }
    assert(n != "audio"@) by {
        assert("bz2"@.len() != "audio"@.len());
    }
    assert(n != "mp3"@) by {
        assert("bz2"@[0] != "mp3"@[0]);
    }
    assert(n != "wav"@) by {
        assert("bz2"@[0] != "wav"@[0]);
    }
    assert(n != "aiff"@) by {
        assert("bz2"@.len() != "aiff"@.len());
    }
    assert(n != "midi"@) by {
        assert("bz2"@.len() != "midi"@.len());
    }
    assert(n != "mp4-audio"@) by {
        assert("bz2"@.len() != "mp4-audio"@.len());
    }
    assert(n != "apple-protected-mp4-audio"@) by {
        assert("bz2"@.len() != "apple-protected-mp4-audio"@.len());
    }
    assert(n != "flac"@) by {
        assert("bz2"@.len() != "flac"@.len());
    }
    assert(n != "ogg-audio"@) by {
        assert("bz2"@.len() != "ogg-audio"@.len());
    }
    assert(n != "ac3-audio"@) by {
        assert("bz2"@.len() != "ac3-audio"@.len());
    }
    assert(n != "aac-audio"@) by {
        assert("bz2"@.len() != "aac-audio"@.len());
    }
    assert(n != "video"@) by {
        assert("bz2"@.len() != "video"@.len());
    }
    assert(n != "mpeg2-transport-stream"@) by {
        assert("bz2"@.len() != "mpeg2-transport-stream"@.len());
    }
    assert(n != "movie"@) by {
        assert("bz2"@.len() != "movie"@.len());
    }
    assert(n != "quicktime-movie"@) by {
        assert("bz2"@.len() != "quicktime-movie"@.len());
    }
    assert(n != "mp4-movie"@) by {
        assert("bz2"@.len() != "mp4-movie"@.len());
    }
    assert(n != "apple-protected-mp4-video"@) by {
        assert("bz2"@.len() != "apple-protected-mp4-video"@.len());
    }
    assert(n != "mpeg"@) by {
        assert("bz2"@.len() != "mpeg"@.len());
    }
    assert(n != "mpeg2-video"@) by {
        assert("bz2"@.len() != "mpeg2-video"@.len());
    }
    assert(n != "avi"@) by {
        assert("bz2"@[0] != "avi"@[0]);
    }
    assert(n != "dv-movie"@) by {
        assert("bz2"@.len() != "dv-movie"@.len());
    }
    assert(n != "real-media"@) by {
        assert("bz2"@.len() != "real-media"@.len());
    }
    assert(n != "real-audio"@) by {
        assert("bz2"@.len() != "real-audio"@.len());
    }
    assert(n != "webm"@) by {
        assert("bz2"@.len() != "webm"@.len());
    }
    assert(n != "matroska"@) by {
        assert("bz2"@.len() != "matroska"@.len());
    }
    assert(n != "m3u-playlist"@) by {
        assert("bz2"@.len() != "m3u-playlist"@.len());
    }
    assert(n != "archive"@) by {
        assert("bz2"@.len() != "archive"@.len());
    }
    assert(n != "zip"@) by {
        assert("bz2"@[0] != "zip"@[0]);
    }
    assert(n != "gzip"@) by {
        assert("bz2"@.len() != "gzip"@.len());
    }
    assert(n != "tar"@) by {
        assert("bz2"@[0] != "tar"@[0]);
    }
    assert(parse_spec(n) == Some(SuperType::Bz2));
}

proof fn lemma_display_parse_applearchive()
    ensures
        parse_spec(normalized(name_spec(SuperType::AppleArchive))) == Some(SuperType::AppleArchive),
{
    reveal_strlit("apple-archive");
    reveal_strlit("text");
    reveal_strlit("plain-text");
    reveal_strlit("csv");
    reveal_strlit("json");
    reveal_strlit("xml");
    reveal_strlit("yaml");
    reveal_strlit("html");
    reveal_strlit("markdown");
    reveal_strlit("rtf");
    reveal_strlit("image");
    reveal_strlit("raw-image");
    reveal_strlit("png");
    reveal_strlit("jpeg");
    reveal_strlit("gif");
    reveal_strlit("tiff");
    reveal_strlit("svg");
    reveal_strlit("webp");
    reveal_strlit("heic");
    reveal_strlit("heif");
    reveal_strlit("bmp");
    reveal_strlit("audio");
    reveal_strlit("mp3");
    reveal_strlit("wav");
    reveal_strlit("aiff");
    reveal_strlit("midi");
    reveal_strlit("mp4-audio");
    reveal_strlit("apple-protected-mp4-audio");
    reveal_strlit("flac");
    reveal_strlit("ogg-audio");
    reveal_strlit("ac3-audio");
    reveal_strlit("aac-audio");
    reveal_strlit("video");
    reveal_strlit("mpeg2-transport-stream");
    reveal_strlit("movie");
    reveal_strlit("quicktime-movie");
    reveal_strlit("mp4-movie");
    reveal_strlit("apple-protected-mp4-video");
    reveal_strlit("mpeg");
    reveal_strlit("mpeg2-video");
    reveal_strlit("avi");
    reveal_strlit("dv-movie");
    reveal_strlit("real-media");
    reveal_strlit("real-audio");
    reveal_strlit("webm");
    reveal_strlit("matroska");
    reveal_strlit("m3u-playlist");
    reveal_strlit("archive");
    reveal_strlit("zip");
    reveal_strlit("gzip");
    reveal_strlit("tar");
    reveal_strlit("bz2");
    assert(normalized(name_spec(SuperType::AppleArchive)) =~= "apple-archive"@);
    let n = normalized(name_spec(SuperType::AppleArchive));
    assert(n != "text"@) by {
        assert("apple-archive"@.len() != "text"@.len());
    }
    assert(n != "plain-text"@) by {
        assert("apple-archive"@.len() != "plain-text"@.len());
    }
    assert(n != "csv"@) by {
        assert("apple-archive"@.len() != "csv"@.len());
    }
    assert(n != "json"@) by {
        assert("apple-archive"@.len() != "json"@.len());
    }
    assert(n != "xml"@) by {
        assert("apple-archive"@.len() != "xml"@.len());
    }
    assert(n != "yaml"@) by {
        assert("apple-archive"@.len() != "yaml"@.len());
    }
    assert(n != "html"@) by {
        assert("apple-archive"@.len() != "html"@.len());
    }
    assert(n != "markdown"@) by {
        assert("apple-archive"@.len() != "markdown"@.len());
    }
    assert(n != "rtf"@) by {
        assert("apple-archive"@.len() != "rtf"@.len());
    }
    assert(n != "image"@) by {
        assert("apple-archive"@.len() != "image"@.len());
    }
    assert(n != "raw-image"@) by {
        assert("apple-archive"@.len() != "raw-image"@.len());
    }
    assert(n != "png"@) by {
        assert("apple-archive"@.len() != "png"@.len());
    }
    assert(n != "jpeg"@) by {
        assert("apple-archive"@.len() != "jpeg"@.len());
    }
    assert(n != "gif"@) by {
        assert("apple-archive"@.len() != "gif"@.len());
    }
    assert(n != "tiff"@) by {
        assert("apple-archive"@.len() != "tiff"@.len());
    }
    assert(n != "svg"@) by {
        assert("apple-archive"@.len() != "svg"@.len());
    }
    assert(n != "webp"@) by {
        assert("apple-archive"@.len() != "webp"@.len());
    }
    assert(n != "heic"@) by {
        assert("apple-archive"@.len() != "heic"@.len());
    }
    assert(n != "heif"@) by {
        assert("apple-archive"@.len() != "heif"@.len());
    }
    assert(n != "bmp"@) by {
        assert("apple-archive"@.len() != "bmp"@.len());
    }
    assert(n != "audio"@) by {
        assert("apple-archive"@.len() != "audio"@.len());
    }
    assert(n != "mp3"@) by {
        assert("apple-archive"@.len() != "mp3"@.len());
    }
    assert(n != "wav"@) by {
        assert("apple-archive"@.len() != "wav"@.len());
    }
    assert(n != "aiff"@) by {
        assert("apple-archive"@.len() != "aiff"@.len());
    }
    assert(n != "midi"@) by {
        assert("apple-archive"@.len() != "midi"@.len());
    }
    assert(n != "mp4-audio"@) by {
        assert("apple-archive"@.len() != "mp4-audio"@.len());
    }
    assert(n != "apple-protected-mp4-audio"@) by {
        assert("apple-archive"@.len() != "apple-protected-mp4-audio"@.len());
    }
    assert(n != "flac"@) by {
        assert("apple-archive"@.len() != "flac"@.len());
    }
    assert(n != "ogg-audio"@) by {
        assert("apple-archive"@.len() != "ogg-audio"@.len());
    }
    assert(n != "ac3-audio"@) by {
        assert("apple-archive"@.len() != "ac3-audio"@.len());
    }
    assert(n != "aac-audio"@) by {
        assert("apple-archive"@.len() != "aac-audio"@.len());
    }
    assert(n != "video"@) by {
        assert("apple-archive"@.len() != "video"@.len());
    }
    assert(n != "mpeg2-transport-stream"@) by {
        assert("apple-archive"@.len() != "mpeg2-transport-stream"@.len());
    }
    assert(n != "movie"@) by {
        assert("apple-archive"@.len() != "movie"@.len());
    }
    assert(n != "quicktime-movie"@) by {
        assert("apple-archive"@.len() != "quicktime-movie"@.len());
    }
    assert(n != "mp4-movie"@) by {
        assert("apple-archive"@.len() != "mp4-movie"@.len());
    }
    assert(n != "apple-protected-mp4-video"@) by {
        assert("apple-archive"@.len() != "apple-protected-mp4-video"@.len());
    }
    assert(n != "mpeg"@) by {
        assert("apple-archive"@.len() != "mpeg"@.len());
    }
    assert(n != "mpeg2-video"@) by {
        assert("apple-archive"@.len() != "mpeg2-video"@.len());
    }
    assert(n != "avi"@) by {
        assert("apple-archive"@.len() != "avi"@.len());
    }
    assert(n != "dv-movie"@) by {
        assert("apple-archive"@.len() != "dv-movie"@.len());
    }
    assert(n != "real-media"@) by {
        assert("apple-archive"@.len() != "real-media"@.len());
    }
    assert(n != "real-audio"@) by {
        assert("apple-archive"@.len() != "real-audio"@.len());
    }
    assert(n != "webm"@) by {
        assert("apple-archive"@.len() != "webm"@.len());
    }
    assert(n != "matroska"@) by {
        assert("apple-archive"@.len() != "matroska"@.len());
    }
    assert(n != "m3u-playlist"@) by {
        assert("apple-archive"@.len() != "m3u-playlist"@.len());
    }
    assert(n != "archive"@) by {
        assert("apple-archive"@.len() != "archive"@.len());
    }
    assert(n != "zip"@) by {
        assert("apple-archive"@.len() != "zip"@.len());
    }
    assert(n != "gzip"@) by {
        assert("apple-archive"@.len() != "gzip"@.len());
    }
    assert(n != "tar"@) by {
        assert("apple-archive"@.len() != "tar"@.len());
    }
    assert(n != "bz2"@) by {
        assert("apple-archive"@.len() != "bz2"@.len());
    }
    assert(parse_spec(n) == Some(SuperType::AppleArchive));
}

proof fn lemma_display_parse_sourcecode()
    ensures
        parse_spec(normalized(name_spec(SuperType::Sourcecode))) == Some(SuperType::Sourcecode),
{
    reveal_strlit("sourcecode");
    reveal_strlit("text");
    reveal_strlit("plain-text");
    reveal_strlit("csv");
    reveal_strlit("json");
    reveal_strlit("xml");
    reveal_strlit("yaml");
    reveal_strlit("html");
    reveal_strlit("markdown");
    reveal_strlit("rtf");
    reveal_strlit("image");
    reveal_strlit("raw-image");
    reveal_strlit("png");
    reveal_strlit("jpeg");
    reveal_strlit("gif");
    reveal_strlit("tiff");
    reveal_strlit("svg");
    reveal_strlit("webp");
    reveal_strlit("heic");
    reveal_strlit("heif");
    reveal_strlit("bmp");
    reveal_strlit("audio");
    reveal_strlit("mp3");
    reveal_strlit("wav");
    reveal_strlit("aiff");
    reveal_strlit("midi");
    reveal_strlit("mp4-audio");
    reveal_strlit("apple-protected-mp4-audio");
    reveal_strlit("flac");
    reveal_strlit("ogg-audio");
    reveal_strlit("ac3-audio");
    reveal_strlit("aac-audio");
    reveal_strlit("video");
    reveal_strlit("mpeg2-transport-stream");
    reveal_strlit("movie");
    reveal_strlit("quicktime-movie");
    reveal_strlit("mp4-movie");
    reveal_strlit("apple-protected-mp4-video");
    reveal_strlit("mpeg");
    reveal_strlit("mpeg2-video");
    reveal_strlit("avi");
    reveal_strlit("dv-movie");
    reveal_strlit("real-media");
    reveal_strlit("real-audio");
    reveal_strlit("webm");
    reveal_strlit("matroska");
    reveal_strlit("m3u-playlist");
    reveal_strlit("archive");
    reveal_strlit("zip");
    reveal_strlit("gzip");
    reveal_strlit("tar");
    reveal_strlit("bz2");
    reveal_strlit("apple-archive");
    assert(normalized(name_spec(SuperType::Sourcecode)) =~= "sourcecode"@);
    let n = normalized(name_spec(SuperType::Sourcecode));
    assert(n != "text"@) by {
        assert("sourcecode"@.len() != "text"@.len());
    }
    assert(n != "plain-text"@) by {
        assert("sourcecode"@[0] != "plain-text"@[0]);
    }
    assert(n != "csv"@) by {
        assert("sourcecode"@.len() != "csv"@.len());
    }
    assert(n != "json"@) by {
        assert("sourcecode"@.len() != "json"@.len());
    }
    assert(n != "xml"@) by {
        assert("sourcecode"@.len() != "xml"@.len());
    }
    assert(n != "yaml"@) by {
        assert("sourcecode"@.len() != "yaml"@.len());
    }
    assert(n != "html"@) by {
        assert("sourcecode"@.len() != "html"@.len());
    }
    assert(n != "markdown"@) by {
        assert("sourcecode"@.len() != "markdown"@.len());
    }
    assert(n != "rtf"@) by {
        assert("sourcecode"@.len() != "rtf"@.len());
    }
    assert(n != "image"@) by {
        assert("sourcecode"@.len() != "image"@.len());
    }
    assert(n != "raw-image"@) by {
        assert("sourcecode"@.len() != "raw-image"@.len());
    }
    assert(n != "png"@) by {
        assert("sourcecode"@.len() != "png"@.len());
    }
    assert(n != "jpeg"@) by {
        assert("sourcecode"@.len() != "jpeg"@.len());
    }
    assert(n != "gif"@) by {
        assert("sourcecode"@.len() != "gif"@.len());
    }
    assert(n != "tiff"@) by {
        assert("sourcecode"@.len() != "tiff"@.len());
    }
    assert(n != "svg"@) by {
        assert("sourcecode"@.len() != "svg"@.len());
    }
    assert(n != "webp"@) by {
        assert("sourcecode"@.len() != "webp"@.len());
    }
    assert(n != "heic"@) by {
        assert("sourcecode"@.len() != "heic"@.len());
    }
    assert(n != "heif"@) by {
        assert("sourcecode"@.len() != "heif"@.len());
    }
    assert(n != "bmp"@) by {
        assert("sourcecode"@.len() != "bmp"@.len());
    }
    assert(n != "audio"@) by {
        assert("sourcecode"@.len() != "audio"@.len());
    }
    assert(n != "mp3"@) by {
        assert("sourcecode"@.len() != "mp3"@.len());
    }
    assert(n != "wav"@) by {
        assert("sourcecode"@.len() != "wav"@.len());
    }
    assert(n != "aiff"@) by {
        assert("sourcecode"@.len() != "aiff"@.len());
    }
    assert(n != "midi"@) by {
        assert("sourcecode"@.len() != "midi"@.len());
    }
    assert(n != "mp4-audio"@) by {
        assert("sourcecode"@.len() != "mp4-audio"@.len());
    }
    assert(n != "apple-protected-mp4-audio"@) by {
        assert("sourcecode"@.len() != "apple-protected-mp4-audio"@.len());
    }
    assert(n != "flac"@) by {
        assert("sourcecode"@.len() != "flac"@.len());
    }
    assert(n != "ogg-audio"@) by {
        assert("sourcecode"@.len() != "ogg-audio"@.len());
    }
    assert(n != "ac3-audio"@) by {
        assert("sourcecode"@.len() != "ac3-audio"@.len());
    }
    assert(n != "aac-audio"@) by {
        assert("sourcecode"@.len() != "aac-audio"@.len());
    }
    assert(n != "video"@) by {
        assert("sourcecode"@.len() != "video"@.len());
    }
    assert(n != "mpeg2-transport-stream"@) by {
        assert("sourcecode"@.len() != "mpeg2-transport-stream"@.len());
    }
    assert(n != "movie"@) by {
        assert("sourcecode"@.len() != "movie"@.len());
    }
    assert(n != "quicktime-movie"@) by {
        assert("sourcecode"@.len() != "quicktime-movie"@.len());
    }
    assert(n != "mp4-movie"@) by {
        assert("sourcecode"@.len() != "mp4-movie"@.len());
    }
    assert(n != "apple-protected-mp4-video"@) by {
        assert("sourcecode"@.len() != "apple-protected-mp4-video"@.len());
    }
    assert(n != "mpeg"@) by {
        assert("sourcecode"@.len() != "mpeg"@.len());
    }
    assert(n != "mpeg2-video"@) by {
        assert("sourcecode"@.len() != "mpeg2-video"@.len());
    }
    assert(n != "avi"@) by {
        assert("sourcecode"@.len() != "avi"@.len());
    }
    assert(n != "dv-movie"@) by {
        assert("sourcecode"@.len() != "dv-movie"@.len());
    }
    assert(n != "real-media"@) by {
        assert("sourcecode"@[0] != "real-media"@[0]);
    }
    assert(n != "real-audio"@) by {
        assert("sourcecode"@[0] != "real-audio"@[0]);
    }
    assert(n != "webm"@) by {
        assert("sourcecode"@.len() != "webm"@.len());
    }
    assert(n != "matroska"@) by {
        assert("sourcecode"@.len() != "matroska"@.len());
    }
    assert(n != "m3u-playlist"@) by {
        assert("sourcecode"@.len() != "m3u-playlist"@.len());
    }
    assert(n != "archive"@) by {
        assert("sourcecode"@.len() != "archive"@.len());
    }
    assert(n != "zip"@) by {
        assert("sourcecode"@.len() != "zip"@.len());
    }
    assert(n != "gzip"@) by {
        assert("sourcecode"@.len() != "gzip"@.len());
    }
    assert(n != "tar"@) by {
        assert("sourcecode"@.len() != "tar"@.len());
    }
    assert(n != "bz2"@) by {
        assert("sourcecode"@.len() != "bz2"@.len());
    }
    assert(n != "apple-archive"@) by {
        assert("sourcecode"@.len() != "apple-archive"@.len());
    }
    assert(parse_spec(n) == Some(SuperType::Sourcecode));
}

proof fn lemma_display_parse_csource()
    ensures
        parse_spec(normalized(name_spec(SuperType::CSource))) == Some(SuperType::CSource),
{
    reveal_strlit("c-source");
    reveal_strlit("text");
    reveal_strlit("plain-text");
    reveal_strlit("csv");
    reveal_strlit("json");
    reveal_strlit("xml");
    reveal_strlit("yaml");
    reveal_strlit("html");
    reveal_strlit("markdown");
    reveal_strlit("rtf");
    reveal_strlit("image");
    reveal_strlit("raw-image");
    reveal_strlit("png");
    reveal_strlit("jpeg");
    reveal_strlit("gif");
    reveal_strlit("tiff");
    reveal_strlit("svg");
    reveal_strlit("webp");
    reveal_strlit("heic");
    reveal_strlit("heif");
    reveal_strlit("bmp");
    reveal_strlit("audio");
    reveal_strlit("mp3");
    reveal_strlit("wav");
    reveal_strlit("aiff");
    reveal_strlit("midi");
    reveal_strlit("mp4-audio");
    reveal_strlit("apple-protected-mp4-audio");
    reveal_strlit("flac");
    reveal_strlit("ogg-audio");
    reveal_strlit("ac3-audio");
    reveal_strlit("aac-audio");
    reveal_strlit("video");
    reveal_strlit("mpeg2-transport-stream");
    reveal_strlit("movie");
    reveal_strlit("quicktime-movie");
    reveal_strlit("mp4-movie");
    reveal_strlit("apple-protected-mp4-video");
    reveal_strlit("mpeg");
    reveal_strlit("mpeg2-video");
    reveal_strlit("avi");
    reveal_strlit("dv-movie");
    reveal_strlit("real-media");
    reveal_strlit("real-audio");
    reveal_strlit("webm");
    reveal_strlit("matroska");
    reveal_strlit("m3u-playlist");
    reveal_strlit("archive");
    reveal_strlit("zip");
    reveal_strlit("gzip");
    reveal_strlit("tar");
    reveal_strlit("bz2");
    reveal_strlit("apple-archive");
    reveal_strlit("sourcecode");
    assert(normalized(name_spec(SuperType::CSource)) =~= "c-source"@);
    let n = normalized(name_spec(SuperType::CSource));
    assert(n != "text"@) by {
        assert("c-source"@.len() != "text"@.len());
    }
    assert(n != "plain-text"@) by {
        assert("c-source"@.len() != "plain-text"@.len());
    }
    assert(n != "csv"@) by {
        assert("c-source"@.len() != "csv"@.len());
    }
    assert(n != "json"@) by {
        assert("c-source"@.len() != "json"@.len());
    }
    assert(n != "xml"@) by {
        assert("c-source"@.len() != "xml"@.len());
    }
    assert(n != "yaml"@) by {
        assert("c-source"@.len() != "yaml"@.len());
    }
    assert(n != "html"@) by {
        assert("c-source"@.len() != "html"@.len());
    }
    assert(n != "markdown"@) by {
        assert("c-source"@[0] != "markdown"@[0]);
    }
    assert(n != "rtf"@) by {
        assert("c-source"@.len() != "rtf"@.len());
    }
    assert(n != "image"@) by {
        assert("c-source"@.len() != "image"@.len());
    }
    assert(n != "raw-image"@) by {
        assert("c-source"@.len() != "raw-image"@.len());
    }
    assert(n != "png"@) by {
        assert("c-source"@.len() != "png"@.len());
    }
    assert(n != "jpeg"@) by {
        assert("c-source"@.len() != "jpeg"@.len());
    }
    assert(n != "gif"@) by {
        assert("c-source"@.len() != "gif"@.len());
    }
    assert(n != "tiff"@) by {
        assert("c-source"@.len() != "tiff"@.len());
    }
    assert(n != "svg"@) by {
        assert("c-source"@.len() != "svg"@.len());
    }
    assert(n != "webp"@) by {
        assert("c-source"@.len() != "webp"@.len());
    }
    assert(n != "heic"@) by {
        assert("c-source"@.len() != "heic"@.len());
    }
    assert(n != "heif"@) by {
        assert("c-source"@.len() != "heif"@.len());
    }
    assert(n != "bmp"@) by {
        assert("c-source"@.len() != "bmp"@.len());
    }
    assert(n != "audio"@) by {
        assert("c-source"@.len() != "audio"@.len());
    }
    assert(n != "mp3"@) by {
        assert("c-source"@.len() != "mp3"@.len());
    }
    assert(n != "wav"@) by {
        assert("c-source"@.len() != "wav"@.len());
    }
    assert(n != "aiff"@) by {
        assert("c-source"@.len() != "aiff"@.len());
    }
    assert(n != "midi"@) by {
        assert("c-source"@.len() != "midi"@.len());
    }
    assert(n != "mp4-audio"@) by {
        assert("c-source"@.len() != "mp4-audio"@.len());
    }
    assert(n != "apple-protected-mp4-audio"@) by {
        assert("c-source"@.len() != "apple-protected-mp4-audio"@.len());
    }
    assert(n != "flac"@) by {
        assert("c-source"@.len() != "flac"@.len());
    }
    assert(n != "ogg-audio"@) by {
        assert("c-source"@.len() != "ogg-audio"@.len());
    }
    assert(n != "ac3-audio"@) by {
        assert("c-source"@.len() != "ac3-audio"@.len());
    }
    assert(n != "aac-audio"@) by {
        assert("c-source"@.len() != "aac-audio"@.len());
    }
    assert(n != "video"@) by {
        assert("c-source"@.len() != "video"@.len());
    }
    assert(n != "mpeg2-transport-stream"@) by {
        assert("c-source"@.len() != "mpeg2-transport-stream"@.len());
    }
    assert(n != "movie"@) by {
        assert("c-source"@.len() != "movie"@.len());
    }
    assert(n != "quicktime-movie"@) by {
        assert("c-source"@.len() != "quicktime-movie"@.len());
    }
    assert(n != "mp4-movie"@) by {
        assert("c-source"@.len() != "mp4-movie"@.len());
    }
    assert(n != "apple-protected-mp4-video"@) by {
        assert("c-source"@.len() != "apple-protected-mp4-video"@.len());
    }
    assert(n != "mpeg"@) by {
        assert("c-source"@.len() != "mpeg"@.len());
    }
    assert(n != "mpeg2-video"@) by {
        assert("c-source"@.len() != "mpeg2-video"@.len());
    }
    assert(n != "avi"@) by {
        assert("c-source"@.len() != "avi"@.len());
    }
    assert(n != "dv-movie"@) by {
        assert("c-source"@[0] != "dv-movie"@[0]);
    }
    assert(n != "real-media"@) by {
        assert("c-source"@.len() != "real-media"@.len());
    }
    assert(n != "real-audio"@) by {
        assert("c-source"@.len() != "real-audio"@.len());
    }
    assert(n != "webm"@) by {
        assert("c-source"@.len() != "webm"@.len());
    }
    assert(n != "matroska"@) by {
        assert("c-source"@[0] != "matroska"@[0]);
    }
    assert(n != "m3u-playlist"@) by {
        assert("c-source"@.len() != "m3u-playlist"@.len());
    }
    assert(n != "archive"@) by {
        assert("c-source"@.len() != "archive"@.len());
    }
    assert(n != "zip"@) by {
        assert("c-source"@.len() != "zip"@.len());
    }
    assert(n != "gzip"@) by {
        assert("c-source"@.len() != "gzip"@.len());
    }
    assert(n != "tar"@) by {
        assert("c-source"@.len() != "tar"@.len());
    }
    assert(n != "bz2"@) by {
        assert("c-source"@.len() != "bz2"@.len());
    }
    assert(n != "apple-archive"@) by {
        assert("c-source"@.len() != "apple-archive"@.len());
    }
    assert(n != "sourcecode"@) by {
        assert("c-source"@.len() != "sourcecode"@.len());
    }
    assert(parse_spec(n) == Some(SuperType::CSource));
}

proof fn lemma_display_parse_cheader()
    ensures
        parse_spec(normalized(name_spec(SuperType::CHeader))) == Some(SuperType::CHeader),
{
    reveal_strlit("c-header");
    reveal_strlit("text");
    reveal_strlit("plain-text");
    reveal_strlit("csv");
    reveal_strlit("json");
    reveal_strlit("xml");
    reveal_strlit("yaml");
    reveal_strlit("html");
    reveal_strlit("markdown");
    reveal_strlit("rtf");
    reveal_strlit("image");
    reveal_strlit("raw-image");
    reveal_strlit("png");
    reveal_strlit("jpeg");
    reveal_strlit("gif");
    reveal_strlit("tiff");
    reveal_strlit("svg");
    reveal_strlit("webp");
    reveal_strlit("heic");
    reveal_strlit("heif");
    reveal_strlit("bmp");
    reveal_strlit("audio");
    reveal_strlit("mp3");
    reveal_strlit("wav");
    reveal_strlit("aiff");
    reveal_strlit("midi");
    reveal_strlit("mp4-audio");
    reveal_strlit("apple-protected-mp4-audio");
    reveal_strlit("flac");
    reveal_strlit("ogg-audio");
    reveal_strlit("ac3-audio");
    reveal_strlit("aac-audio");
    reveal_strlit("video");
    reveal_strlit("mpeg2-transport-stream");
    reveal_strlit("movie");
    reveal_strlit("quicktime-movie");
    reveal_strlit("mp4-movie");
    reveal_strlit("apple-protected-mp4-video");
    reveal_strlit("mpeg");
    reveal_strlit("mpeg2-video");
    reveal_strlit("avi");
    reveal_strlit("dv-movie");
    reveal_strlit("real-media");
    reveal_strlit("real-audio");
    reveal_strlit("webm");
    reveal_strlit("matroska");
    reveal_strlit("m3u-playlist");
    reveal_strlit("archive");
    reveal_strlit("zip");
    reveal_strlit("gzip");
    reveal_strlit("tar");
    reveal_strlit("bz2");
    reveal_strlit("apple-archive");
    reveal_strlit("sourcecode");
    reveal_strlit("c-source");
    assert(normalized(name_spec(SuperType::CHeader)) =~= "c-header"@);
    let n = normalized(name_spec(SuperType::CHeader));
    assert(n != "text"@) by {
        assert("c-header"@.len() != "text"@.len());
    }
    assert(n != "plain-text"@) by {
        assert("c-header"@.len() != "plain-text"@.len());
    }
    assert(n != "csv"@) by {
        assert("c-header"@.len() != "csv"@.len());
    }
    assert(n != "json"@) by {
        assert("c-header"@.len() != "json"@.len());
    }
    assert(n != "xml"@) by {
        assert("c-header"@.len() != "xml"@.len());
    }
    assert(n != "yaml"@) by {
        assert("c-header"@.len() != "yaml"@.len());
    }
    assert(n != "html"@) by {
        assert("c-header"@.len() != "html"@.len());
    }
    assert(n != "markdown"@) by {
        assert("c-header"@[0] != "markdown"@[0]);
    }
    assert(n != "rtf"@) by {
        assert("c-header"@.len() != "rtf"@.len());
    }
    assert(n != "image"@) by {
        assert("c-header"@.len() != "image"@.len());
    }
    assert(n != "raw-image"@) by {
        assert("c-header"@.len() != "raw-image"@.len());
    }
    assert(n != "png"@) by {
        assert("c-header"@.len() != "png"@.len());
    }
    assert(n != "jpeg"@) by {
        assert("c-header"@.len() != "jpeg"@.len());
    }
    assert(n != "gif"@) by {
        assert("c-header"@.len() != "gif"@.len());
    }
    assert(n != "tiff"@) by {
        assert("c-header"@.len() != "tiff"@.len());
    }
    assert(n != "svg"@) by {
        assert("c-header"@.len() != "svg"@.len());
    }
    assert(n != "webp"@) by {
        assert("c-header"@.len() != "webp"@.len());
    }
    assert(n != "heic"@) by {
        assert("c-header"@.len() != "heic"@.len());
    }
    assert(n != "heif"@) by {
        assert("c-header"@.len() != "heif"@.len());
    }
    assert(n != "bmp"@) by {
        assert("c-header"@.len() != "bmp"@.len());
    }
    assert(n != "audio"@) by {
        assert("c-header"@.len() != "audio"@.len());
    }
    assert(n != "mp3"@) by {
        assert("c-header"@.len() != "mp3"@.len());
    }
    assert(n != "wav"@) by {
        assert("c-header"@.len() != "wav"@.len());
    }
    assert(n != "aiff"@) by {
        assert("c-header"@.len() != "aiff"@.len());
    }
    assert(n != "midi"@) by {
        assert("c-header"@.len() != "midi"@.len());
    }
    assert(n != "mp4-audio"@) by {
        assert("c-header"@.len() != "mp4-audio"@.len());
    }
    assert(n != "apple-protected-mp4-audio"@) by {
        assert("c-header"@.len() != "apple-protected-mp4-audio"@.len());
    }
    assert(n != "flac"@) by {
        assert("c-header"@.len() != "flac"@.len());
    }
    assert(n != "ogg-audio"@) by {
        assert("c-header"@.len() != "ogg-audio"@.len());
    }
    assert(n != "ac3-audio"@) by {
        assert("c-header"@.len() != "ac3-audio"@.len());
    }
    assert(n != "aac-audio"@) by {
        assert("c-header"@.len() != "aac-audio"@.len());
    }
    assert(n != "video"@) by {
        assert("c-header"@.len() != "video"@.len());
    }
    assert(n != "mpeg2-transport-stream"@) by {
        assert("c-header"@.len() != "mpeg2-transport-stream"@.len());
    }
    assert(n != "movie"@) by {
        assert("c-header"@.len() != "movie"@.len());
    }
    assert(n != "quicktime-movie"@) by {
        assert("c-header"@.len() != "quicktime-movie"@.len());
    }
    assert(n != "mp4-movie"@) by {
        assert("c-header"@.len() != "mp4-movie"@.len());
    }
    assert(n != "apple-protected-mp4-video"@) by {
        assert("c-header"@.len() != "apple-protected-mp4-video"@.len());
    }
    assert(n != "mpeg"@) by {
        assert("c-header"@.len() != "mpeg"@.len());
    }
    assert(n != "mpeg2-video"@) by {
        assert("c-header"@.len() != "mpeg2-video"@.len());
    }
    assert(n != "avi"@) by {
        assert("c-header"@.len() != "avi"@.len());
    }
    assert(n != "dv-movie"@) by {
        assert("c-header"@[0] != "dv-movie"@[0]);
    }
    assert(n != "real-media"@) by {
        assert("c-header"@.len() != "real-media"@.len());
    }
    assert(n != "real-audio"@) by {
        assert("c-header"@.len() != "real-audio"@.len());
    }
    assert(n != "webm"@) by {
        assert("c-header"@.len() != "webm"@.len());
    }
    assert(n != "matroska"@) by {
        assert("c-header"@[0] != "matroska"@[0]);
    }
    assert(n != "m3u-playlist"@) by {
        assert("c-header"@.len() != "m3u-playlist"@.len());
    }
    assert(n != "archive"@) by {
        assert("c-header"@.len() != "archive"@.len());
    }
    assert(n != "zip"@) by {
        assert("c-header"@.len() != "zip"@.len());
    }
    assert(n != "gzip"@) by {
        assert("c-header"@.len() != "gzip"@.len());
    }
    assert(n != "tar"@) by {
        assert("c-header"@.len() != "tar"@.len());
    }
    assert(n != "bz2"@) by {
        assert("c-header"@.len() != "bz2"@.len());
    }
    assert(n != "apple-archive"@) by {
        assert("c-header"@.len() != "apple-archive"@.len());
    }
    assert(n != "sourcecode"@) by {
        assert("c-header"@.len() != "sourcecode"@.len());
    }
    assert(n != "c-source"@) by {
        assert("c-header"@[2] != "c-source"@[2]);
    }
    assert(parse_spec(n) == Some(SuperType::CHeader));
}

proof fn lemma_display_parse_cppsource()
    ensures
        parse_spec(normalized(name_spec(SuperType::CppSource))) == Some(SuperType::CppSource),
{
    reveal_strlit("cpp-source");
    reveal_strlit("text");
    reveal_strlit("plain-text");
    reveal_strlit("csv");
    reveal_strlit("json");
    reveal_strlit("xml");
    reveal_strlit("yaml");
    reveal_strlit("html");
    reveal_strlit("markdown");
    reveal_strlit("rtf");
    reveal_strlit("image");
    reveal_strlit("raw-image");
    reveal_strlit("png");
    reveal_strlit("jpeg");
    reveal_strlit("gif");
    reveal_strlit("tiff");
    reveal_strlit("svg");
    reveal_strlit("webp");
    reveal_strlit("heic");
    reveal_strlit("heif");
    reveal_strlit("bmp");
    reveal_strlit("audio");
    reveal_strlit("mp3");
    reveal_strlit("wav");
    reveal_strlit("aiff");
    reveal_strlit("midi");
    reveal_strlit("mp4-audio");
    reveal_strlit("apple-protected-mp4-audio");
    reveal_strlit("flac");
    reveal_strlit("ogg-audio");
    reveal_strlit("ac3-audio");
    reveal_strlit("aac-audio");
    reveal_strlit("video");
    reveal_strlit("mpeg2-transport-stream");
    reveal_strlit("movie");
    reveal_strlit("quicktime-movie");
    reveal_strlit("mp4-movie");
    reveal_strlit("apple-protected-mp4-video");
    reveal_strlit("mpeg");
    reveal_strlit("mpeg2-video");
    reveal_strlit("avi");
    reveal_strlit("dv-movie");
    reveal_strlit("real-media");
    reveal_strlit("real-audio");
    reveal_strlit("webm");
    reveal_strlit("matroska");
    reveal_strlit("m3u-playlist");
    reveal_strlit("archive");
    reveal_strlit("zip");
    reveal_strlit("gzip");
    reveal_strlit("tar");
    reveal_strlit("bz2");
    reveal_strlit("apple-archive");
    reveal_strlit("sourcecode");
    reveal_strlit("c-source");
    reveal_strlit("c-header");
    assert(normalized(name_spec(SuperType::CppSource)) =~= "cpp-source"@);
    let n = normalized(name_spec(SuperType::CppSource));
    assert(n != "text"@) by {
        assert("cpp-source"@.len() != "text"@.len());
    }
    assert(n != "plain-text"@) by {
        assert("cpp-source"@[0] != "plain-text"@[0]);
    }
    assert(n != "csv"@) by {
        assert("cpp-source"@.len() != "csv"@.len());
    }
    assert(n != "json"@) by {
        assert("cpp-source"@.len() != "json"@.len());
    }
    assert(n != "xml"@) by {
        assert("cpp-source"@.len() != "xml"@.len());
    }
    assert(n != "yaml"@) by {
        assert("cpp-source"@.len() != "yaml"@.len());
    }
    assert(n != "html"@) by {
        assert("cpp-source"@.len() != "html"@.len());
    }
    assert(n != "markdown"@) by {
        assert("cpp-source"@.len() != "markdown"@.len());
    }
    assert(n != "rtf"@) by {
        assert("cpp-source"@.len() != "rtf"@.len());
    }
    assert(n != "image"@) by {
        assert("cpp-source"@.len() != "image"@.len());
    }
    assert(n != "raw-image"@) by {
        assert("cpp-source"@.len() != "raw-image"@.len());
    }
    assert(n != "png"@) by {
        assert("cpp-source"@.len() != "png"@.len());
    }
    assert(n != "jpeg"@) by {
        assert("cpp-source"@.len() != "jpeg"@.len());
    }
    assert(n != "gif"@) by {
        assert("cpp-source"@.len() != "gif"@.len());
    }
    assert(n != "tiff"@) by {
        assert("cpp-source"@.len() != "tiff"@.len());
    }
    assert(n != "svg"@) by {
        assert("cpp-source"@.len() != "svg"@.len());
    }
    assert(n != "webp"@) by {
        assert("cpp-source"@.len() != "webp"@.len());
    }
    assert(n != "heic"@) by {
        assert("cpp-source"@.len() != "heic"@.len());
    }
    assert(n != "heif"@) by {
        assert("cpp-source"@.len() != "heif"@.len());
    }
    assert(n != "bmp"@) by {
        assert("cpp-source"@.len() != "bmp"@.len());
    }
    assert(n != "audio"@) by {
        assert("cpp-source"@.len() != "audio"@.len());
    }
    assert(n != "mp3"@) by {
        assert("cpp-source"@.len() != "mp3"@.len());
    }
    assert(n != "wav"@) by {
        assert("cpp-source"@.len() != "wav"@.len());
    }
    assert(n != "aiff"@) by {
        assert("cpp-source"@.len() != "aiff"@.len());
    }
    assert(n != "midi"@) by {
        assert("cpp-source"@.len() != "midi"@.len());
    }
    assert(n != "mp4-audio"@) by {
        assert("cpp-source"@.len() != "mp4-audio"@.len());
    }
    assert(n != "apple-protected-mp4-audio"@) by {
        assert("cpp-source"@.len() != "apple-protected-mp4-audio"@.len());
    }
    assert(n != "flac"@) by {
        assert("cpp-source"@.len() != "flac"@.len());
    }
    assert(n != "ogg-audio"@) by {
        assert("cpp-source"@.len() != "ogg-audio"@.len());
    }
    assert(n != "ac3-audio"@) by {
        assert("cpp-source"@.len() != "ac3-audio"@.len());
    }
    assert(n != "aac-audio"@) by {
        assert("cpp-source"@.len() != "aac-audio"@.len());
    }
    assert(n != "video"@) by {
        assert("cpp-source"@.len() != "video"@.len());
    }
    assert(n != "mpeg2-transport-stream"@) by {
        assert("cpp-source"@.len() != "mpeg2-transport-stream"@.len());
    }
    assert(n != "movie"@) by {
        assert("cpp-source"@.len() != "movie"@.len());
    }
    assert(n != "quicktime-movie"@) by {
        assert("cpp-source"@.len() != "quicktime-movie"@.len());
    }
    assert(n != "mp4-movie"@) by {
        assert("cpp-source"@.len() != "mp4-movie"@.len());
    }
    assert(n != "apple-protected-mp4-video"@) by {
        assert("cpp-source"@.len() != "apple-protected-mp4-video"@.len());
    }
    assert(n != "mpeg"@) by {
        assert("cpp-source"@.len() != "mpeg"@.len());
    }
    assert(n != "mpeg2-video"@) by {
        assert("cpp-source"@.len() != "mpeg2-video"@.len());
    }
    assert(n != "avi"@) by {
        assert("cpp-source"@.len() != "avi"@.len());
    }
    assert(n != "dv-movie"@) by {
        assert("cpp-source"@.len() != "dv-movie"@.len());
    }
    assert(n != "real-media"@) by {
        assert("cpp-source"@[0] != "real-media"@[0]);
    }
    assert(n != "real-audio"@) by {
        assert("cpp-source"@[0] != "real-audio"@[0]);
    }
    assert(n != "webm"@) by {
        assert("cpp-source"@.len() != "webm"@.len());
    }
    assert(n != "matroska"@) by {
        assert("cpp-source"@.len() != "matroska"@.len());
    }
    assert(n != "m3u-playlist"@) by {
        assert("cpp-source"@.len() != "m3u-playlist"@.len());
    }
    assert(n != "archive"@) by {
        assert("cpp-source"@.len() != "archive"@.len());
    }
    assert(n != "zip"@) by {
        assert("cpp-source"@.len() != "zip"@.len());
    }
    assert(n != "gzip"@) by {
        assert("cpp-source"@.len() != "gzip"@.len());
    }
    assert(n != "tar"@) by {
        assert("cpp-source"@.len() != "tar"@.len());
    }
    assert(n != "bz2"@) by {
        assert("cpp-source"@.len() != "bz2"@.len());
    }
    assert(n != "apple-archive"@) by {
        assert("cpp-source"@.len() != "apple-archive"@.len());
    }
    assert(n != "sourcecode"@) by {
        assert("cpp-source"@[0] != "sourcecode"@[0]);
    }
    assert(n != "c-source"@) by {
        assert("cpp-source"@.len() != "c-source"@.len());
    }
    assert(n != "c-header"@) by {
        assert("cpp-source"@.len() != "c-header"@.len());
    }
    assert(parse_spec(n) == Some(SuperType::CppSource));
}

proof fn lemma_display_parse_cppheader()
    ensures
        parse_spec(normalized(name_spec(SuperType::CppHeader))) == Some(SuperType::CppHeader),
{
    reveal_strlit("cpp-header");
    reveal_strlit("text");
    reveal_strlit("plain-text");
    reveal_strlit("csv");
    reveal_strlit("json");
    reveal_strlit("xml");
    reveal_strlit("yaml");
    reveal_strlit("html");
    reveal_strlit("markdown");
    reveal_strlit("rtf");
    reveal_strlit("image");
    reveal_strlit("raw-image");
    reveal_strlit("png");
    reveal_strlit("jpeg");
    reveal_strlit("gif");
    reveal_strlit("tiff");
    reveal_strlit("svg");
    reveal_strlit("webp");
    reveal_strlit("heic");
    reveal_strlit("heif");
    reveal_strlit("bmp");
    reveal_strlit("audio");
    reveal_strlit("mp3");
    reveal_strlit("wav");
    reveal_strlit("aiff");
    reveal_strlit("midi");
    reveal_strlit("mp4-audio");
    reveal_strlit("apple-protected-mp4-audio");
    reveal_strlit("flac");
    reveal_strlit("ogg-audio");
    reveal_strlit("ac3-audio");
    reveal_strlit("aac-audio");
    reveal_strlit("video");
    reveal_strlit("mpeg2-transport-stream");
    reveal_strlit("movie");
    reveal_strlit("quicktime-movie");
    reveal_strlit("mp4-movie");
    reveal_strlit("apple-protected-mp4-video");
    reveal_strlit("mpeg");
    reveal_strlit("mpeg2-video");
    reveal_strlit("avi");
    reveal_strlit("dv-movie");
    reveal_strlit("real-media");
    reveal_strlit("real-audio");
    reveal_strlit("webm");
    reveal_strlit("matroska");
    reveal_strlit("m3u-playlist");
    reveal_strlit("archive");
    reveal_strlit("zip");
    reveal_strlit("gzip");
    reveal_strlit("tar");
    reveal_strlit("bz2");
    reveal_strlit("apple-archive");
    reveal_strlit("sourcecode");
    reveal_strlit("c-source");
    reveal_strlit("c-header");
    reveal_strlit("cpp-source");
    assert(normalized(name_spec(SuperType::CppHeader)) =~= "cpp-header"@);
    let n = normalized(name_spec(SuperType::CppHeader));
    assert(n != "text"@) by {
        assert("cpp-header"@.len() != "text"@.len());
    }
    assert(n != "plain-text"@) by {
        assert("cpp-header"@[0] != "plain-text"@[0]);
    }
    assert(n != "csv"@) by {
        assert("cpp-header"@.len() != "csv"@.len());
    }
    assert(n != "json"@) by {
        assert("cpp-header"@.len() != "json"@.len());
    }
    assert(n != "xml"@) by {
        assert("cpp-header"@.len() != "xml"@.len());
    }
    assert(n != "yaml"@) by {
        assert("cpp-header"@.len() != "yaml"@.len());
    }
    assert(n != "html"@) by {
        assert("cpp-header"@.len() != "html"@.len());
    }
    assert(n != "markdown"@) by {
        assert("cpp-header"@.len() != "markdown"@.len());
    }
    assert(n != "rtf"@) by {
        assert("cpp-header"@.len() != "rtf"@.len());
    }
    assert(n != "image"@) by {
        assert("cpp-header"@.len() != "image"@.len());
    }
    assert(n != "raw-image"@) by {
        assert("cpp-header"@.len() != "raw-image"@.len());
    }
    assert(n != "png"@) by {
        assert("cpp-header"@.len() != "png"@.len());
    }
    assert(n != "jpeg"@) by {
        assert("cpp-header"@.len() != "jpeg"@.len());
    }
    assert(n != "gif"@) by {
        assert("cpp-header"@.len() != "gif"@.len());
    }
    assert(n != "tiff"@) by {
        assert("cpp-header"@.len() != "tiff"@.len());
    }
    assert(n != "svg"@) by {
        assert("cpp-header"@.len() != "svg"@.len());
    }
    assert(n != "webp"@) by {
        assert("cpp-header"@.len() != "webp"@.len());
    }
    assert(n != "heic"@) by {
        assert("cpp-header"@.len() != "heic"@.len());
    }
    assert(n != "heif"@) by {
        assert("cpp-header"@.len() != "heif"@.len());
    }
    assert(n != "bmp"@) by {
        assert("cpp-header"@.len() != "bmp"@.len());
    }
    assert(n != "audio"@) by {
        assert("cpp-header"@.len() != "audio"@.len());
    }
    assert(n != "mp3"@) by {
        assert("cpp-header"@.len() != "mp3"@.len());
    }
    assert(n != "wav"@) by {
        assert("cpp-header"@.len() != "wav"@.len());
    }
    assert(n != "aiff"@) by {
        assert("cpp-header"@.len() != "aiff"@.len());
    }
    assert(n != "midi"@) by {
        assert("cpp-header"@.len() != "midi"@.len());
    }
    assert(n != "mp4-audio"@) by {
        assert("cpp-header"@.len() != "mp4-audio"@.len());
    }
    assert(n != "apple-protected-mp4-audio"@) by {
        assert("cpp-header"@.len() != "apple-protected-mp4-audio"@.len());
    }
    assert(n != "flac"@) by {
        assert("cpp-header"@.len() != "flac"@.len());
    }
    assert(n != "ogg-audio"@) by {
        assert("cpp-header"@.len() != "ogg-audio"@.len());
    }
    assert(n != "ac3-audio"@) by {
        assert("cpp-header"@.len() != "ac3-audio"@.len());
    }
    assert(n != "aac-audio"@) by {
        assert("cpp-header"@.len() != "aac-audio"@.len());
    }
    assert(n != "video"@) by {
        assert("cpp-header"@.len() != "video"@.len());
    }
    assert(n != "mpeg2-transport-stream"@) by {
        assert("cpp-header"@.len() != "mpeg2-transport-stream"@.len());
    }
    assert(n != "movie"@) by {
        assert("cpp-header"@.len() != "movie"@.len());
    }
    assert(n != "quicktime-movie"@) by {
        assert("cpp-header"@.len() != "quicktime-movie"@.len());
    }
    assert(n != "mp4-movie"@) by {
        assert("cpp-header"@.len() != "mp4-movie"@.len());
    }
    assert(n != "apple-protected-mp4-video"@) by {
        assert("cpp-header"@.len() != "apple-protected-mp4-video"@.len());
    }
    assert(n != "mpeg"@) by {
        assert("cpp-header"@.len() != "mpeg"@.len());
    }
    assert(n != "mpeg2-video"@) by {
        assert("cpp-header"@.len() != "mpeg2-video"@.len());
    }
    assert(n != "avi"@) by {
        assert("cpp-header"@.len() != "avi"@.len());
    }
    assert(n != "dv-movie"@) by {
        assert("cpp-header"@.len() != "dv-movie"@.len());
    }
    assert(n != "real-media"@) by {
        assert("cpp-header"@[0] != "real-media"@[0]);
    }
    assert(n != "real-audio"@) by {
        assert("cpp-header"@[0] != "real-audio"@[0]);
    }
    assert(n != "webm"@) by {
        assert("cpp-header"@.len() != "webm"@.len());
    }
    assert(n != "matroska"@) by {
        assert("cpp-header"@.len() != "matroska"@.len());
    }
    assert(n != "m3u-playlist"@) by {
        assert("cpp-header"@.len() != "m3u-playlist"@.len());
    }
    assert(n != "archive"@) by {
        assert("cpp-header"@.len() != "archive"@.len());
    }
    assert(n != "zip"@) by {
        assert("cpp-header"@.len() != "zip"@.len());
    }
    assert(n != "gzip"@) by {
        assert("cpp-header"@.len() != "gzip"@.len());
    }
    assert(n != "tar"@) by {
        assert("cpp-header"@.len() != "tar"@.len());
    }
    assert(n != "bz2"@) by {
        assert("cpp-header"@.len() != "bz2"@.len());
    }
    assert(n != "apple-archive"@) by {
        assert("cpp-header"@.len() != "apple-archive"@.len());
    }
    assert(n != "sourcecode"@) by {
        assert("cpp-header"@[0] != "sourcecode"@[0]);
    }
    assert(n != "c-source"@) by {
        assert("cpp-header"@.len() != "c-source"@.len());
    }
    assert(n != "c-header"@) by {
        assert("cpp-header"@.len() != "c-header"@.len());
    }
    assert(n != "cpp-source"@) by {
        assert("cpp-header"@[4] != "cpp-source"@[4]);
    }
    assert(parse_spec(n) == Some(SuperType::CppHeader));
}

proof fn lemma_display_parse_objcsource()
    ensures
        parse_spec(normalized(name_spec(SuperType::ObjcSource))) == Some(SuperType::ObjcSource),
{
    reveal_strlit("objc-source");
    reveal_strlit("text");
    reveal_strlit("plain-text");
    reveal_strlit("csv");
    reveal_strlit("json");
    reveal_strlit("xml");
    reveal_strlit("yaml");
    reveal_strlit("html");
    reveal_strlit("markdown");
    reveal_strlit("rtf");
    reveal_strlit("image");
    reveal_strlit("raw-image");
    reveal_strlit("png");
    reveal_strlit("jpeg");
    reveal_strlit("gif");
    reveal_strlit("tiff");
    reveal_strlit("svg");
    reveal_strlit("webp");
    reveal_strlit("heic");
    reveal_strlit("heif");
    reveal_strlit("bmp");
    reveal_strlit("audio");
    reveal_strlit("mp3");
    reveal_strlit("wav");
    reveal_strlit("aiff");
    reveal_strlit("midi");
    reveal_strlit("mp4-audio");
    reveal_strlit("apple-protected-mp4-audio");
    reveal_strlit("flac");
    reveal_strlit("ogg-audio");
    reveal_strlit("ac3-audio");
    reveal_strlit("aac-audio");
    reveal_strlit("video");
    reveal_strlit("mpeg2-transport-stream");
    reveal_strlit("movie");
    reveal_strlit("quicktime-movie");
    reveal_strlit("mp4-movie");
    reveal_strlit("apple-protected-mp4-video");
    reveal_strlit("mpeg");
    reveal_strlit("mpeg2-video");
    reveal_strlit("avi");
    reveal_strlit("dv-movie");
    reveal_strlit("real-media");
    reveal_strlit("real-audio");
    reveal_strlit("webm");
    reveal_strlit("matroska");
    reveal_strlit("m3u-playlist");
    reveal_strlit("archive");
    reveal_strlit("zip");
    reveal_strlit("gzip");
    reveal_strlit("tar");
    reveal_strlit("bz2");
    reveal_strlit("apple-archive");
    reveal_strlit("sourcecode");
    reveal_strlit("c-source");
    reveal_strlit("c-header");
    reveal_strlit("cpp-source");
    reveal_strlit("cpp-header");
    assert(normalized(name_spec(SuperType::ObjcSource)) =~= "objc-source"@);
    let n = normalized(name_spec(SuperType::ObjcSource));
    assert(n != "text"@) by {
        assert("objc-source"@.len() != "text"@.len());
    }
    assert(n != "plain-text"@) by {
        assert("objc-source"@.len() != "plain-text"@.len());
    }
    assert(n != "csv"@) by {
        assert("objc-source"@.len() != "csv"@.len());
    }
    assert(n != "json"@) by {
        assert("objc-source"@.len() != "json"@.len());
    }
    assert(n != "xml"@) by {
        assert("objc-source"@.len() != "xml"@.len());
    }
    assert(n != "yaml"@) by {
        assert("objc-source"@.len() != "yaml"@.len());
    }
    assert(n != "html"@) by {
        assert("objc-source"@.len() != "html"@.len());
    }
    assert(n != "markdown"@) by {
        assert("objc-source"@.len() != "markdown"@.len());
    }
    assert(n != "rtf"@) by {
        assert("objc-source"@.len() != "rtf"@.len());
    }
    assert(n != "image"@) by {
        assert("objc-source"@.len() != "image"@.len());
    }
    assert(n != "raw-image"@) by {
        assert("objc-source"@.len() != "raw-image"@.len());
    }
    assert(n != "png"@) by {
        assert("objc-source"@.len() != "png"@.len());
    }
    assert(n != "jpeg"@) by {
        assert("objc-source"@.len() != "jpeg"@.len());
    }
    assert(n != "gif"@) by {
        assert("objc-source"@.len() != "gif"@.len());
    }
    assert(n != "tiff"@) by {
        assert("objc-source"@.len() != "tiff"@.len());
    }
    assert(n != "svg"@) by {
        assert("objc-source"@.len() != "svg"@.len());
    }
    assert(n != "webp"@) by {
        assert("objc-source"@.len() != "webp"@.len());
    }
    assert(n != "heic"@) by {
        assert("objc-source"@.len() != "heic"@.len());
    }
    assert(n != "heif"@) by {
        assert("objc-source"@.len() != "heif"@.len());
    }
    assert(n != "bmp"@) by {
        assert("objc-source"@.len() != "bmp"@.len());
    }
    assert(n != "audio"@) by {
        assert("objc-source"@.len() != "audio"@.len());
    }
    assert(n != "mp3"@) by {
        assert("objc-source"@.len() != "mp3"@.len());
    }
    assert(n != "wav"@) by {
        assert("objc-source"@.len() != "wav"@.len());
    }
    assert(n != "aiff"@) by {
        assert("objc-source"@.len() != "aiff"@.len());
    }
    assert(n != "midi"@) by {
        assert("objc-source"@.len() != "midi"@.len());
    }
    assert(n != "mp4-audio"@) by {
        assert("objc-source"@.len() != "mp4-audio"@.len());
    }
    assert(n != "apple-protected-mp4-audio"@) by {
        assert("objc-source"@.len() != "apple-protected-mp4-audio"@.len());
    }
    assert(n != "flac"@) by {
        assert("objc-source"@.len() != "flac"@.len());
    }
    assert(n != "ogg-audio"@) by {
        assert("objc-source"@.len() != "ogg-audio"@.len());
    }
    assert(n != "ac3-audio"@) by {
        assert("objc-source"@.len() != "ac3-audio"@.len());
    }
    assert(n != "aac-audio"@) by {
        assert("objc-source"@.len() != "aac-audio"@.len());
    }
    assert(n != "video"@) by {
        assert("objc-source"@.len() != "video"@.len());
    }
    assert(n != "mpeg2-transport-stream"@) by {
        assert("objc-source"@.len() != "mpeg2-transport-stream"@.len());
    }
    assert(n != "movie"@) by {
        assert("objc-source"@.len() != "movie"@.len());
    }
    assert(n != "quicktime-movie"@) by {
        assert("objc-source"@.len() != "quicktime-movie"@.len());
    }
    assert(n != "mp4-movie"@) by {
        assert("objc-source"@.len() != "mp4-movie"@.len());
    }
    assert(n != "apple-protected-mp4-video"@) by {
        assert("objc-source"@.len() != "apple-protected-mp4-video"@.len());
    }
    assert(n != "mpeg"@) by {
        assert("objc-source"@.len() != "mpeg"@.len());
    }
    assert(n != "mpeg2-video"@) by {
        assert("objc-source"@[0] != "mpeg2-video"@[0]);
    }
    assert(n != "avi"@) by {
        assert("objc-source"@.len() != "avi"@.len());
    }
    assert(n != "dv-movie"@) by {
        assert("objc-source"@.len() != "dv-movie"@.len());
    }
    assert(n != "real-media"@) by {
        assert("objc-source"@.len() != "real-media"@.len());
    }
    assert(n != "real-audio"@) by {
        assert("objc-source"@.len() != "real-audio"@.len());
    }
    assert(n != "webm"@) by {
        assert("objc-source"@.len() != "webm"@.len());
    }
    assert(n != "matroska"@) by {
        assert("objc-source"@.len() != "matroska"@.len());
    }
    assert(n != "m3u-playlist"@) by {
        assert("objc-source"@.len() != "m3u-playlist"@.len());
    }
    assert(n != "archive"@) by {
        assert("objc-source"@.len() != "archive"@.len());
    }
    assert(n != "zip"@) by {
        assert("objc-source"@.len() != "zip"@.len());
    }
    assert(n != "gzip"@) by {
        assert("objc-source"@.len() != "gzip"@.len());
    }
    assert(n != "tar"@) by {
        assert("objc-source"@.len() != "tar"@.len());
    }
    assert(n != "bz2"@) by {
        assert("objc-source"@.len() != "bz2"@.len());
    }
    assert(n != "apple-archive"@) by {
        assert("objc-source"@.len() != "apple-archive"@.len());
    }
    assert(n != "sourcecode"@) by {
        assert("objc-source"@.len() != "sourcecode"@.len());
    }
    assert(n != "c-source"@) by {
        assert("objc-source"@.len() != "c-source"@.len());
    }
    assert(n != "c-header"@) by {
        assert("objc-source"@.len() != "c-header"@.len());
    }
    assert(n != "cpp-source"@) by {
        assert("objc-source"@.len() != "cpp-source"@.len());
    }
    assert(n != "cpp-header"@) by {
        assert("objc-source"@.len() != "cpp-header"@.len());
    }
    assert(parse_spec(n) == Some(SuperType::ObjcSource));
}

proof fn lemma_display_parse_objcplusplussource()
    ensures
        parse_spec(normalized(name_spec(SuperType::ObjcPlusPlusSource))) == Some(SuperType::ObjcPlusPlusSource),
{
    reveal_strlit("objc-plus-plus-source");
    reveal_strlit("text");
    reveal_strlit("plain-text");
    reveal_strlit("csv");
    reveal_strlit("json");
    reveal_strlit("xml");
    reveal_strlit("yaml");
    reveal_strlit("html");
    reveal_strlit("markdown");
    reveal_strlit("rtf");
    reveal_strlit("image");
    reveal_strlit("raw-image");
    reveal_strlit("png");
    reveal_strlit("jpeg");
    reveal_strlit("gif");
    reveal_strlit("tiff");
    reveal_strlit("svg");
    reveal_strlit("webp");
    reveal_strlit("heic");
    reveal_strlit("heif");
    reveal_strlit("bmp");
    reveal_strlit("audio");
    reveal_strlit("mp3");
    reveal_strlit("wav");
    reveal_strlit("aiff");
    reveal_strlit("midi");
    reveal_strlit("mp4-audio");
    reveal_strlit("apple-protected-mp4-audio");
    reveal_strlit("flac");
    reveal_strlit("ogg-audio");
    reveal_strlit("ac3-audio");
    reveal_strlit("aac-audio");
    reveal_strlit("video");
    reveal_strlit("mpeg2-transport-stream");
    reveal_strlit("movie");
    reveal_strlit("quicktime-movie");
    reveal_strlit("mp4-movie");
    reveal_strlit("apple-protected-mp4-video");
    reveal_strlit("mpeg");
    reveal_strlit("mpeg2-video");
    reveal_strlit("avi");
    reveal_strlit("dv-movie");
    reveal_strlit("real-media");
    reveal_strlit("real-audio");
    reveal_strlit("webm");
    reveal_strlit("matroska");
    reveal_strlit("m3u-playlist");
    reveal_strlit("archive");
    reveal_strlit("zip");
    reveal_strlit("gzip");
    reveal_strlit("tar");
    reveal_strlit("bz2");
    reveal_strlit("apple-archive");
    reveal_strlit("sourcecode");
    reveal_strlit("c-source");
    reveal_strlit("c-header");
    reveal_strlit("cpp-source");
    reveal_strlit("cpp-header");
    reveal_strlit("objc-source");
    assert(normalized(name_spec(SuperType::ObjcPlusPlusSource)) =~= "objc-plus-plus-source"@);
    let n = normalized(name_spec(SuperType::ObjcPlusPlusSource));
    assert(n != "text"@) by {
        assert("objc-plus-plus-source"@.len() != "text"@.len());
    }
    assert(n != "plain-text"@) by {
        assert("objc-plus-plus-source"@.len() != "plain-text"@.len());
    }
    assert(n != "csv"@) by {
        assert("objc-plus-plus-source"@.len() != "csv"@.len());
    }
    assert(n != "json"@) by {
        assert("objc-plus-plus-source"@.len() != "json"@.len());
    }
    assert(n != "xml"@) by {
        assert("objc-plus-plus-source"@.len() != "xml"@.len());
    }
    assert(n != "yaml"@) by {
        assert("objc-plus-plus-source"@.len() != "yaml"@.len());
    }
    assert(n != "html"@) by {
        assert("objc-plus-plus-source"@.len() != "html"@.len());
    }
    assert(n != "markdown"@) by {
        assert("objc-plus-plus-source"@.len() != "markdown"@.len());
    }
    assert(n != "rtf"@) by {
        assert("objc-plus-plus-source"@.len() != "rtf"@.len());
    }
    assert(n != "image"@) by {
        assert("objc-plus-plus-source"@.len() != "image"@.len());
    }
    assert(n != "raw-image"@) by {
        assert("objc-plus-plus-source"@.len() != "raw-image"@.len());
    }
    assert(n != "png"@) by {
        assert("objc-plus-plus-source"@.len() != "png"@.len());
    }
    assert(n != "jpeg"@) by {
        assert("objc-plus-plus-source"@.len() != "jpeg"@.len());
    }
    assert(n != "gif"@) by {
        assert("objc-plus-plus-source"@.len() != "gif"@.len());
    }
    assert(n != "tiff"@) by {
        assert("objc-plus-plus-source"@.len() != "tiff"@.len());
    }
    assert(n != "svg"@) by {
        assert("objc-plus-plus-source"@.len() != "svg"@.len());
    }
    assert(n != "webp"@) by {
        assert("objc-plus-plus-source"@.len() != "webp"@.len());
    }
    assert(n != "heic"@) by {
        assert("objc-plus-plus-source"@.len() != "heic"@.len());
    }
    assert(n != "heif"@) by {
        assert("objc-plus-plus-source"@.len() != "heif"@.len());
    }
    assert(n != "bmp"@) by {
        assert("objc-plus-plus-source"@.len() != "bmp"@.len());
    }
    assert(n != "audio"@) by {
        assert("objc-plus-plus-source"@.len() != "audio"@.len());
    }
    assert(n != "mp3"@) by {
        assert("objc-plus-plus-source"@.len() != "mp3"@.len());
    }
    assert(n != "wav"@) by {
        assert("objc-plus-plus-source"@.len() != "wav"@.len());
    }
    assert(n != "aiff"@) by {
        assert("objc-plus-plus-source"@.len() != "aiff"@.len());
    }
    assert(n != "midi"@) by {
        assert("objc-plus-plus-source"@.len() != "midi"@.len());
    }
    assert(n != "mp4-audio"@) by {
        assert("objc-plus-plus-source"@.len() != "mp4-audio"@.len());
    }
    assert(n != "apple-protected-mp4-audio"@) by {
        assert("objc-plus-plus-source"@.len() != "apple-protected-mp4-audio"@.len());
    }
    assert(n != "flac"@) by {
        assert("objc-plus-plus-source"@.len() != "flac"@.len());
    }
    assert(n != "ogg-audio"@) by {
        assert("objc-plus-plus-source"@.len() != "ogg-audio"@.len());
    }
    assert(n != "ac3-audio"@) by {
        assert("objc-plus-plus-source"@.len() != "ac3-audio"@.len());
    }
    assert(n != "aac-audio"@) by {
        assert("objc-plus-plus-source"@.len() != "aac-audio"@.len());
    }
    assert(n != "video"@) by {
        assert("objc-plus-plus-source"@.len() != "video"@.len());
    }
    assert(n != "mpeg2-transport-stream"@) by {
        assert("objc-plus-plus-source"@.len() != "mpeg2-transport-stream"@.len());
    }
    assert(n != "movie"@) by {
        assert("objc-plus-plus-source"@.len() != "movie"@.len());
    }
    assert(n != "quicktime-movie"@) by {
        assert("objc-plus-plus-source"@.len() != "quicktime-movie"@.len());
    }
    assert(n != "mp4-movie"@) by {
        assert("objc-plus-plus-source"@.len() != "mp4-movie"@.len());
    }
    assert(n != "apple-protected-mp4-video"@) by {
        assert("objc-plus-plus-source"@.len() != "apple-protected-mp4-video"@.len());
    }
    assert(n != "mpeg"@) by {
        assert("objc-plus-plus-source"@.len() != "mpeg"@.len());
    }
    assert(n != "mpeg2-video"@) by {
        assert("objc-plus-plus-source"@.len() != "mpeg2-video"@.len());
    }
    assert(n != "avi"@) by {
        assert("objc-plus-plus-source"@.len() != "avi"@.len());
    }
    assert(n != "dv-movie"@) by {
        assert("objc-plus-plus-source"@.len() != "dv-movie"@.len());
    }
    assert(n != "real-media"@) by {
        assert("objc-plus-plus-source"@.len() != "real-media"@.len());
    }
    assert(n != "real-audio"@) by {
        assert("objc-plus-plus-source"@.len() != "real-audio"@.len());
    }
    assert(n != "webm"@) by {
        assert("objc-plus-plus-source"@.len() != "webm"@.len());
    }
    assert(n != "matroska"@) by {
        assert("objc-plus-plus-source"@.len() != "matroska"@.len());
    }
    assert(n != "m3u-playlist"@) by {
        assert("objc-plus-plus-source"@.len() != "m3u-playlist"@.len());
    }
    assert(n != "archive"@) by {
        assert("objc-plus-plus-source"@.len() != "archive"@.len());
    }
    assert(n != "zip"@) by {
        assert("objc-plus-plus-source"@.len() != "zip"@.len());
    }
    assert(n != "gzip"@) by {
        assert("objc-plus-plus-source"@.len() != "gzip"@.len());
    }
    assert(n != "tar"@) by {
        assert("objc-plus-plus-source"@.len() != "tar"@.len());
    }
    assert(n != "bz2"@) by {
        assert("objc-plus-plus-source"@.len() != "bz2"@.len());
    }
    assert(n != "apple-archive"@) by {
        assert("objc-plus-plus-source"@.len() != "apple-archive"@.len());
    }
    assert(n != "sourcecode"@) by {
        assert("objc-plus-plus-source"@.len() != "sourcecode"@.len());
    }
    assert(n != "c-source"@) by {
        assert("objc-plus-plus-source"@.len() != "c-source"@.len());
    }
    assert(n != "c-header"@) by {
        assert("objc-plus-plus-source"@.len() != "c-header"@.len());
    }
    assert(n != "cpp-source"@) by {
        assert("objc-plus-plus-source"@.len() != "cpp-source"@.len());
    }
    assert(n != "cpp-header"@) by {
        assert("objc-plus-plus-source"@.len() != "cpp-header"@.len());
    }
    assert(n != "objc-source"@) by {
        assert("objc-plus-plus-source"@.len() != "objc-source"@.len());
    }
    assert(parse_spec(n) == Some(SuperType::ObjcPlusPlusSource));
}

proof fn lemma_display_parse_swiftsource()
    ensures
        parse_spec(normalized(name_spec(SuperType::SwiftSource))) == Some(SuperType::SwiftSource),
{
    reveal_strlit("swift-source");
    reveal_strlit("text");
    reveal_strlit("plain-text");
    reveal_strlit("csv");
    reveal_strlit("json");
    reveal_strlit("xml");
    reveal_strlit("yaml");
    reveal_strlit("html");
    reveal_strlit("markdown");
    reveal_strlit("rtf");
    reveal_strlit("image");
    reveal_strlit("raw-image");
    reveal_strlit("png");
    reveal_strlit("jpeg");
    reveal_strlit("gif");
    reveal_strlit("tiff");
    reveal_strlit("svg");
    reveal_strlit("webp");
    reveal_strlit("heic");
    reveal_strlit("heif");
    reveal_strlit("bmp");
    reveal_strlit("audio");
    reveal_strlit("mp3");
    reveal_strlit("wav");
    reveal_strlit("aiff");
    reveal_strlit("midi");
    reveal_strlit("mp4-audio");
    reveal_strlit("apple-protected-mp4-audio");
    reveal_strlit("flac");
    reveal_strlit("ogg-audio");
    reveal_strlit("ac3-audio");
    reveal_strlit("aac-audio");
    reveal_strlit("video");
    reveal_strlit("mpeg2-transport-stream");
    reveal_strlit("movie");
    reveal_strlit("quicktime-movie");
    reveal_strlit("mp4-movie");
    reveal_strlit("apple-protected-mp4-video");
    reveal_strlit("mpeg");
    reveal_strlit("mpeg2-video");
    reveal_strlit("avi");
    reveal_strlit("dv-movie");
    reveal_strlit("real-media");
    reveal_strlit("real-audio");
    reveal_strlit("webm");
    reveal_strlit("matroska");
    reveal_strlit("m3u-playlist");
    reveal_strlit("archive");
    reveal_strlit("zip");
    reveal_strlit("gzip");
    reveal_strlit("tar");
    reveal_strlit("bz2");
    reveal_strlit("apple-archive");
    reveal_strlit("sourcecode");
    reveal_strlit("c-source");
    reveal_strlit("c-header");
    reveal_strlit("cpp-source");
    reveal_strlit("cpp-header");
    reveal_strlit("objc-source");
    reveal_strlit("objc-plus-plus-source");
    assert(normalized(name_spec(SuperType::SwiftSource)) =~= "swift-source"@);
    let n = normalized(name_spec(SuperType::SwiftSource));
    assert(n != "text"@) by {
        assert("swift-source"@.len() != "text"@.len());
    }
    assert(n != "plain-text"@) by {
        assert("swift-source"@.len() != "plain-text"@.len());
    }
    assert(n != "csv"@) by {
        assert("swift-source"@.len() != "csv"@.len());
    }
    assert(n != "json"@) by {
        assert("swift-source"@.len() != "json"@.len());
    }
    assert(n != "xml"@) by {
        assert("swift-source"@.len() != "xml"@.len());
    }
    assert(n != "yaml"@) by {
        assert("swift-source"@.len() != "yaml"@.len());
    }
    assert(n != "html"@) by {
        assert("swift-source"@.len() != "html"@.len());
    }
    assert(n != "markdown"@) by {
        assert("swift-source"@.len() != "markdown"@.len());
    }
    assert(n != "rtf"@) by {
        assert("swift-source"@.len() != "rtf"@.len());
    }
    assert(n != "image"@) by {
        assert("swift-source"@.len() != "image"@.len());
    }
    assert(n != "raw-image"@) by {
        assert("swift-source"@.len() != "raw-image"@.len());
    }
    assert(n != "png"@) by {
        assert("swift-source"@.len() != "png"@.len());
    }
    assert(n != "jpeg"@) by {
        assert("swift-source"@.len() != "jpeg"@.len());
    }
    assert(n != "gif"@) by {
        assert("swift-source"@.len() != "gif"@.len());
    }
    assert(n != "tiff"@) by {
        assert("swift-source"@.len() != "tiff"@.len());
    }
    assert(n != "svg"@) by {
        assert("swift-source"@.len() != "svg"@.len());
    }
    assert(n != "webp"@) by {
        assert("swift-source"@.len() != "webp"@.len());
    }
    assert(n != "heic"@) by {
        assert("swift-source"@.len() != "heic"@.len());
    }
    assert(n != "heif"@) by {
        assert("swift-source"@.len() != "heif"@.len());
    }
    assert(n != "bmp"@) by {
        assert("swift-source"@.len() != "bmp"@.len());
    }
    assert(n != "audio"@) by {
        assert("swift-source"@.len() != "audio"@.len());
    }
    assert(n != "mp3"@) by {
        assert("swift-source"@.len() != "mp3"@.len());
    }
    assert(n != "wav"@) by {
        assert("swift-source"@.len() != "wav"@.len());
    }
    assert(n != "aiff"@) by {
        assert("swift-source"@.len() != "aiff"@.len());
    }
    assert(n != "midi"@) by {
        assert("swift-source"@.len() != "midi"@.len());
    }
    assert(n != "mp4-audio"@) by {
        assert("swift-source"@.len() != "mp4-audio"@.len());
    }
    assert(n != "apple-protected-mp4-audio"@) by {
        assert("swift-source"@.len() != "apple-protected-mp4-audio"@.len());
    }
    assert(n != "flac"@) by {
        assert("swift-source"@.len() != "flac"@.len());
    }
    assert(n != "ogg-audio"@) by {
        assert("swift-source"@.len() != "ogg-audio"@.len());
    }
    assert(n != "ac3-audio"@) by {
        assert("swift-source"@.len() != "ac3-audio"@.len());
    }
    assert(n != "aac-audio"@) by {
        assert("swift-source"@.len() != "aac-audio"@.len());
    }
    assert(n != "video"@) by {
        assert("swift-source"@.len() != "video"@.len());
    }
    assert(n != "mpeg2-transport-stream"@) by {
        assert("swift-source"@.len() != "mpeg2-transport-stream"@.len());
    }
    assert(n != "movie"@) by {
        assert("swift-source"@.len() != "movie"@.len());
    }
    assert(n != "quicktime-movie"@) by {
        assert("swift-source"@.len() != "quicktime-movie"@.len());
    }
    assert(n != "mp4-movie"@) by {
        assert("swift-source"@.len() != "mp4-movie"@.len());
    }
    assert(n != "apple-protected-mp4-video"@) by {
        assert("swift-source"@.len() != "apple-protected-mp4-video"@.len());
    }
    assert(n != "mpeg"@) by {
        assert("swift-source"@.len() != "mpeg"@.len());
    }
    assert(n != "mpeg2-video"@) by {
        assert("swift-source"@.len() != "mpeg2-video"@.len());
    }
    assert(n != "avi"@) by {
        assert("swift-source"@.len() != "avi"@.len());
    }
    assert(n != "dv-movie"@) by {
        assert("swift-source"@.len() != "dv-movie"@.len());
    }
    assert(n != "real-media"@) by {
        assert("swift-source"@.len() != "real-media"@.len());
    }
    assert(n != "real-audio"@) by {
        assert("swift-source"@.len() != "real-audio"@.len());
    }
    assert(n != "webm"@) by {
        assert("swift-source"@.len() != "webm"@.len());
    }
    assert(n != "matroska"@) by {
        assert("swift-source"@.len() != "matroska"@.len());
    }
    assert(n != "m3u-playlist"@) by {
        assert("swift-source"@[0] != "m3u-playlist"@[0]);
    }
    assert(n != "archive"@) by {
        assert("swift-source"@.len() != "archive"@.len());
    }
    assert(n != "zip"@) by {
        assert("swift-source"@.len() != "zip"@.len());
    }
    assert(n != "gzip"@) by {
        assert("swift-source"@.len() != "gzip"@.len());
    }
    assert(n != "tar"@) by {
        assert("swift-source"@.len() != "tar"@.len());
    }
    assert(n != "bz2"@) by {
        assert("swift-source"@.len() != "bz2"@.len());
    }
    assert(n != "apple-archive"@) by {
        assert("swift-source"@.len() != "apple-archive"@.len());
    }
    assert(n != "sourcecode"@) by {
        assert("swift-source"@.len() != "sourcecode"@.len());
    }
    assert(n != "c-source"@) by {
        assert("swift-source"@.len() != "c-source"@.len());
    }
    assert(n != "c-header"@) by {
        assert("swift-source"@.len() != "c-header"@.len());
    }
    assert(n != "cpp-source"@) by {
        assert("swift-source"@.len() != "cpp-source"@.len());
    }
    assert(n != "cpp-header"@) by {
        assert("swift-source"@.len() != "cpp-header"@.len());
    }
    assert(n != "objc-source"@) by {
        assert("swift-source"@.len() != "objc-source"@.len());
    }
    assert(n != "objc-plus-plus-source"@) by {
        assert("swift-source"@.len() != "objc-plus-plus-source"@.len());
    }
    assert(parse_spec(n) == Some(SuperType::SwiftSource));
}

proof fn lemma_display_parse_shell()
    ensures
        parse_spec(normalized(name_spec(SuperType::Shell))) == Some(SuperType::Shell),
{
    reveal_strlit("shell");
    reveal_strlit("text");
    reveal_strlit("plain-text");
    reveal_strlit("csv");
    reveal_strlit("json");
    reveal_strlit("xml");
    reveal_strlit("yaml");
    reveal_strlit("html");
    reveal_strlit("markdown");
    reveal_strlit("rtf");
    reveal_strlit("image");
    reveal_strlit("raw-image");
    reveal_strlit("png");
    reveal_strlit("jpeg");
    reveal_strlit("gif");
    reveal_strlit("tiff");
    reveal_strlit("svg");
    reveal_strlit("webp");
    reveal_strlit("heic");
    reveal_strlit("heif");
    reveal_strlit("bmp");
    reveal_strlit("audio");
    reveal_strlit("mp3");
    reveal_strlit("wav");
    reveal_strlit("aiff");
    reveal_strlit("midi");
    reveal_strlit("mp4-audio");
    reveal_strlit("apple-protected-mp4-audio");
    reveal_strlit("flac");
    reveal_strlit("ogg-audio");
    reveal_strlit("ac3-audio");
    reveal_strlit("aac-audio");
    reveal_strlit("video");
    reveal_strlit("mpeg2-transport-stream");
    reveal_strlit("movie");
    reveal_strlit("quicktime-movie");
    reveal_strlit("mp4-movie");
    reveal_strlit("apple-protected-mp4-video");
    reveal_strlit("mpeg");
    reveal_strlit("mpeg2-video");
    reveal_strlit("avi");
    reveal_strlit("dv-movie");
    reveal_strlit("real-media");
    reveal_strlit("real-audio");
    reveal_strlit("webm");
    reveal_strlit("matroska");
    reveal_strlit("m3u-playlist");
    reveal_strlit("archive");
    reveal_strlit("zip");
    reveal_strlit("gzip");
    reveal_strlit("tar");
    reveal_strlit("bz2");
    reveal_strlit("apple-archive");
    reveal_strlit("sourcecode");
    reveal_strlit("c-source");
    reveal_strlit("c-header");
    reveal_strlit("cpp-source");
    reveal_strlit("cpp-header");
    reveal_strlit("objc-source");
    reveal_strlit("objc-plus-plus-source");
    reveal_strlit("swift-source");
    assert(normalized(name_spec(SuperType::Shell)) =~= "shell"@);
    let n = normalized(name_spec(SuperType::Shell));
    assert(n != "text"@) by {
        assert("shell"@.len() != "text"@.len());
    }
    assert(n != "plain-text"@) by {
        assert("shell"@.len() != "plain-text"@.len());
    }
    assert(n != "csv"@) by {
        assert("shell"@.len() != "csv"@.len());
    }
    assert(n != "json"@) by {
        assert("shell"@.len() != "json"@.len());
    }
    assert(n != "xml"@) by {
        assert("shell"@.len() != "xml"@.len());
    }
    assert(n != "yaml"@) by {
        assert("shell"@.len() != "yaml"@.len());
    }
    assert(n != "html"@) by {
        assert("shell"@.len() != "html"@.len());
    }
    assert(n != "markdown"@) by {
        assert("shell"@.len() != "markdown"@.len());
    }
    assert(n != "rtf"@) by {
        assert("shell"@.len() != "rtf"@.len());
    }
    assert(n != "image"@) by {
        assert("shell"@[0] != "image"@[0]);
    }
    assert(n != "raw-image"@) by {
        assert("shell"@.len() != "raw-image"@.len());
    }
    assert(n != "png"@) by {
        assert("shell"@.len() != "png"@.len());
    }
    assert(n != "jpeg"@) by {
        assert("shell"@.len() != "jpeg"@.len());
    }
    assert(n != "gif"@) by {
        assert("shell"@.len() != "gif"@.len());
    }
    assert(n != "tiff"@) by {
        assert("shell"@.len() != "tiff"@.len());
    }
    assert(n != "svg"@) by {
        assert("shell"@.len() != "svg"@.len());
    }
    assert(n != "webp"@) by {
        assert("shell"@.len() != "webp"@.len());
    }
    assert(n != "heic"@) by {
        assert("shell"@.len() != "heic"@.len());
    }
    assert(n != "heif"@) by {
        assert("shell"@.len() != "heif"@.len());
    }
    assert(n != "bmp"@) by {
        assert("shell"@.len() != "bmp"@.len());
    }
    assert(n != "audio"@) by {
        assert("shell"@[0] != "audio"@[0]);
    }
    assert(n != "mp3"@) by {
        assert("shell"@.len() != "mp3"@.len());
    }
    assert(n != "wav"@) by {
        assert("shell"@.len() != "wav"@.len());
    }
    assert(n != "aiff"@) by {
        assert("shell"@.len() != "aiff"@.len());
    }
    assert(n != "midi"@) by {
        assert("shell"@.len() != "midi"@.len());
    }
    assert(n != "mp4-audio"@) by {
        assert("shell"@.len() != "mp4-audio"@.len());
    }
    assert(n != "apple-protected-mp4-audio"@) by {
        assert("shell"@.len() != "apple-protected-mp4-audio"@.len());
    }
    assert(n != "flac"@) by {
        assert("shell"@.len() != "flac"@.len());
    }
    assert(n != "ogg-audio"@) by {
        assert("shell"@.len() != "ogg-audio"@.len());
    }
    assert(n != "ac3-audio"@) by {
        assert("shell"@.len() != "ac3-audio"@.len());
    }
    assert(n != "aac-audio"@) by {
        assert("shell"@.len() != "aac-audio"@.len());
    }
    assert(n != "video"@) by {
        assert("shell"@[0] != "video"@[0]);
    }
    assert(n != "mpeg2-transport-stream"@) by {
        assert("shell"@.len() != "mpeg2-transport-stream"@.len());
    }
    assert(n != "movie"@) by {
        assert("shell"@[0] != "movie"@[0]);
    }
    assert(n != "quicktime-movie"@) by {
        assert("shell"@.len() != "quicktime-movie"@.len());
    }
    assert(n != "mp4-movie"@) by {
        assert("shell"@.len() != "mp4-movie"@.len());
    }
    assert(n != "apple-protected-mp4-video"@) by {
        assert("shell"@.len() != "apple-protected-mp4-video"@.len());
    }
    assert(n != "mpeg"@) by {
        assert("shell"@.len() != "mpeg"@.len());
    }
    assert(n != "mpeg2-video"@) by {
        assert("shell"@.len() != "mpeg2-video"@.len());
    }
    assert(n != "avi"@) by {
        assert("shell"@.len() != "avi"@.len());
    }
    assert(n != "dv-movie"@) by {
        assert("shell"@.len() != "dv-movie"@.len());
    }
    assert(n != "real-media"@) by {
        assert("shell"@.len() != "real-media"@.len());
    }
    assert(n != "real-audio"@) by {
        assert("shell"@.len() != "real-audio"@.len());
    }
    assert(n != "webm"@) by {
        assert("shell"@.len() != "webm"@.len());
    }
    assert(n != "matroska"@) by {
        assert("shell"@.len() != "matroska"@.len());
    }
    assert(n != "m3u-playlist"@) by {
        assert("shell"@.len() != "m3u-playlist"@.len());
    }
    assert(n != "archive"@) by {
        assert("shell"@.len() != "archive"@.len());
    }
    assert(n != "zip"@) by {
        assert("shell"@.len() != "zip"@.len());
    }
    assert(n != "gzip"@) by {
        assert("shell"@.len() != "gzip"@.len());
    }
    assert(n != "tar"@) by {
        assert("shell"@.len() != "tar"@.len());
    }
    assert(n != "bz2"@) by {
        assert("shell"@.len() != "bz2"@.len());
    }
    assert(n != "apple-archive"@) by {
        assert("shell"@.len() != "apple-archive"@.len());
    }
    assert(n != "sourcecode"@) by {
        assert("shell"@.len() != "sourcecode"@.len());
    }
    assert(n != "c-source"@) by {
        assert("shell"@.len() != "c-source"@.len());
    }
    assert(n != "c-header"@) by {
        assert("shell"@.len() != "c-header"@.len());
    }
    assert(n != "cpp-source"@) by {
        assert("shell"@.len() != "cpp-source"@.len());
    }
    assert(n != "cpp-header"@) by {
        assert("shell"@.len() != "cpp-header"@.len());
    }
    assert(n != "objc-source"@) by {
        assert("shell"@.len() != "objc-source"@.len());
    }
    assert(n != "objc-plus-plus-source"@) by {
        assert("shell"@.len() != "objc-plus-plus-source"@.len());
    }
    assert(n != "swift-source"@) by {
        assert("shell"@.len() != "swift-source"@.len());
    }
    assert(parse_spec(n) == Some(SuperType::Shell));
}

proof fn lemma_display_parse_makefile()
    ensures
        parse_spec(normalized(name_spec(SuperType::Makefile))) == Some(SuperType::Makefile),
{
    reveal_strlit("makefile");
    reveal_strlit("text");
    reveal_strlit("plain-text");
    reveal_strlit("csv");
    reveal_strlit("json");
    reveal_strlit("xml");
    reveal_strlit("yaml");
    reveal_strlit("html");
    reveal_strlit("markdown");
    reveal_strlit("rtf");
    reveal_strlit("image");
    reveal_strlit("raw-image");
    reveal_strlit("png");
    reveal_strlit("jpeg");
    reveal_strlit("gif");
    reveal_strlit("tiff");
    reveal_strlit("svg");
    reveal_strlit("webp");
    reveal_strlit("heic");
    reveal_strlit("heif");
    reveal_strlit("bmp");
    reveal_strlit("audio");
    reveal_strlit("mp3");
    reveal_strlit("wav");
    reveal_strlit("aiff");
    reveal_strlit("midi");
    reveal_strlit("mp4-audio");
    reveal_strlit("apple-protected-mp4-audio");
    reveal_strlit("flac");
    reveal_strlit("ogg-audio");
    reveal_strlit("ac3-audio");
    reveal_strlit("aac-audio");
    reveal_strlit("video");
    reveal_strlit("mpeg2-transport-stream");
    reveal_strlit("movie");
    reveal_strlit("quicktime-movie");
    reveal_strlit("mp4-movie");
    reveal_strlit("apple-protected-mp4-video");
    reveal_strlit("mpeg");
    reveal_strlit("mpeg2-video");
    reveal_strlit("avi");
    reveal_strlit("dv-movie");
    reveal_strlit("real-media");
    reveal_strlit("real-audio");
    reveal_strlit("webm");
    reveal_strlit("matroska");
    reveal_strlit("m3u-playlist");
    reveal_strlit("archive");
    reveal_strlit("zip");
    reveal_strlit("gzip");
    reveal_strlit("tar");
    reveal_strlit("bz2");
    reveal_strlit("apple-archive");
    reveal_strlit("sourcecode");
    reveal_strlit("c-source");
    reveal_strlit("c-header");
    reveal_strlit("cpp-source");
    reveal_strlit("cpp-header");
    reveal_strlit("objc-source");
    reveal_strlit("objc-plus-plus-source");
    reveal_strlit("swift-source");
    reveal_strlit("shell");
    assert(normalized(name_spec(SuperType::Makefile)) =~= "makefile"@);
    let n = normalized(name_spec(SuperType::Makefile));
    assert(n != "text"@) by {
        assert("makefile"@.len() != "text"@.len());
    }
    assert(n != "plain-text"@) by {
        assert("makefile"@.len() != "plain-text"@.len());
    }
    assert(n != "csv"@) by {
        assert("makefile"@.len() != "csv"@.len());
    }
    assert(n != "json"@) by {
        assert("makefile"@.len() != "json"@.len());
    }
    assert(n != "xml"@) by {
        assert("makefile"@.len() != "xml"@.len());
    }
    assert(n != "yaml"@) by {
        assert("makefile"@.len() != "yaml"@.len());
    }
    assert(n != "html"@) by {
        assert("makefile"@.len() != "html"@.len());
    }
    assert(n != "markdown"@) by {
        assert("makefile"@[2] != "markdown"@[2]);
    }
    assert(n != "rtf"@) by {
        assert("makefile"@.len() != "rtf"@.len());
    }
    assert(n != "image"@) by {
        assert("makefile"@.len() != "image"@.len());
    }
    assert(n != "raw-image"@) by {
        assert("makefile"@.len() != "raw-image"@.len());
    }
    assert(n != "png"@) by {
        assert("makefile"@.len() != "png"@.len());
    }
    assert(n != "jpeg"@) by {
        assert("makefile"@.len() != "jpeg"@.len());
    }
    assert(n != "gif"@) by {
        assert("makefile"@.len() != "gif"@.len());
    }
    assert(n != "tiff"@) by {
        assert("makefile"@.len() != "tiff"@.len());
    }
    assert(n != "svg"@) by {
        assert("makefile"@.len() != "svg"@.len());
    }
    assert(n != "webp"@) by {
        assert("makefile"@.len() != "webp"@.len());
    }
    assert(n != "heic"@) by {
        assert("makefile"@.len() != "heic"@.len());
    }
    assert(n != "heif"@) by {
        assert("makefile"@.len() != "heif"@.len());
    }
    assert(n != "bmp"@) by {
        assert("makefile"@.len() != "bmp"@.len());
    }
    assert(n != "audio"@) by {
        assert("makefile"@.len() != "audio"@.len());
    }
    assert(n != "mp3"@) by {
        assert("makefile"@.len() != "mp3"@.len());
    }
    assert(n != "wav"@) by {
        assert("makefile"@.len() != "wav"@.len());
    }
    assert(n != "aiff"@) by {
        assert("makefile"@.len() != "aiff"@.len());
    }
    assert(n != "midi"@) by {
        assert("makefile"@.len() != "midi"@.len());
    }
    assert(n != "mp4-audio"@) by {
        assert("makefile"@.len() != "mp4-audio"@.len());
    }
    assert(n != "apple-protected-mp4-audio"@) by {
        assert("makefile"@.len() != "apple-protected-mp4-audio"@.len());
    }
    assert(n != "flac"@) by {
        assert("makefile"@.len() != "flac"@.len());
    }
    assert(n != "ogg-audio"@) by {
        assert("makefile"@.len() != "ogg-audio"@.len());
    }
    assert(n != "ac3-audio"@) by {
        assert("makefile"@.len() != "ac3-audio"@.len());
    }
    assert(n != "aac-audio"@) by {
        assert("makefile"@.len() != "aac-audio"@.len());
    }
    assert(n != "video"@) by {
        assert("makefile"@.len() != "video"@.len());
    }
    assert(n != "mpeg2-transport-stream"@) by {
        assert("makefile"@.len() != "mpeg2-transport-stream"@.len());
    }
    assert(n != "movie"@) by {
        assert("makefile"@.len() != "movie"@.len());
    }
    assert(n != "quicktime-movie"@) by {
        assert("makefile"@.len() != "quicktime-movie"@.len());
    }
    assert(n != "mp4-movie"@) by {
        assert("makefile"@.len() != "mp4-movie"@.len());
    }
    assert(n != "apple-protected-mp4-video"@) by {
        assert("makefile"@.len() != "apple-protected-mp4-video"@.len());
    }
    assert(n != "mpeg"@) by {
        assert("makefile"@.len() != "mpeg"@.len());
    }
    assert(n != "mpeg2-video"@) by {
        assert("makefile"@.len() != "mpeg2-video"@.len());
    }
    assert(n != "avi"@) by {
        assert("makefile"@.len() != "avi"@.len());
    }
    assert(n != "dv-movie"@) by {
        assert("makefile"@[0] != "dv-movie"@[0]);
    }
    assert(n != "real-media"@) by {
        assert("makefile"@.len() != "real-media"@.len());
    }
    assert(n != "real-audio"@) by {
        assert("makefile"@.len() != "real-audio"@.len());
    }
    assert(n != "webm"@) by {
        assert("makefile"@.len() != "webm"@.len());
    }
    assert(n != "matroska"@) by {
        assert("makefile"@[2] != "matroska"@[2]);
    }
    assert(n != "m3u-playlist"@) by {
        assert("makefile"@.len() != "m3u-playlist"@.len());
    }
    assert(n != "archive"@) by {
        assert("makefile"@.len() != "archive"@.len());
    }
    assert(n != "zip"@) by {
        assert("makefile"@.len() != "zip"@.len());
    }
    assert(n != "gzip"@) by {
        assert("makefile"@.len() != "gzip"@.len());
    }
    assert(n != "tar"@) by {
        assert("makefile"@.len() != "tar"@.len());
    }
    assert(n != "bz2"@) by {
        assert("makefile"@.len() != "bz2"@.len());
    }
    assert(n != "apple-archive"@) by {
        assert("makefile"@.len() != "apple-archive"@.len());
    }
    assert(n != "sourcecode"@) by {
        assert("makefile"@.len() != "sourcecode"@.len());
    }
    assert(n != "c-source"@) by {
        assert("makefile"@[0] != "c-source"@[0]);
    }
    assert(n != "c-header"@) by {
        assert("makefile"@[0] != "c-header"@[0]);
    }
    assert(n != "cpp-source"@) by {
        assert("makefile"@.len() != "cpp-source"@.len());
    }
    assert(n != "cpp-header"@) by {
        assert("makefile"@.len() != "cpp-header"@.len());
    }
    assert(n != "objc-source"@) by {
        assert("makefile"@.len() != "objc-source"@.len());
    }
    assert(n != "objc-plus-plus-source"@) by {
        assert("makefile"@.len() != "objc-plus-plus-source"@.len());
    }
    assert(n != "swift-source"@) by {
        assert("makefile"@.len() != "swift-source"@.len());
    }
    assert(n != "shell"@) by {
        assert("makefile"@.len() != "shell"@.len());
    }
    assert(parse_spec(n) == Some(SuperType::Makefile));
}

proof fn lemma_display_parse_javascript()
    ensures
        parse_spec(normalized(name_spec(SuperType::Javascript))) == Some(SuperType::Javascript),
{
    reveal_strlit("javascript");
    reveal_strlit("text");
    reveal_strlit("plain-text");
    reveal_strlit("csv");
    reveal_strlit("json");
    reveal_strlit("xml");
    reveal_strlit("yaml");
    reveal_strlit("html");
    reveal_strlit("markdown");
    reveal_strlit("rtf");
    reveal_strlit("image");
    reveal_strlit("raw-image");
    reveal_strlit("png");
    reveal_strlit("jpeg");
    reveal_strlit("gif");
    reveal_strlit("tiff");
    reveal_strlit("svg");
    reveal_strlit("webp");
    reveal_strlit("heic");
    reveal_strlit("heif");
    reveal_strlit("bmp");
    reveal_strlit("audio");
    reveal_strlit("mp3");
    reveal_strlit("wav");
    reveal_strlit("aiff");
    reveal_strlit("midi");
    reveal_strlit("mp4-audio");
    reveal_strlit("apple-protected-mp4-audio");
    reveal_strlit("flac");
    reveal_strlit("ogg-audio");
    reveal_strlit("ac3-audio");
    reveal_strlit("aac-audio");
    reveal_strlit("video");
    reveal_strlit("mpeg2-transport-stream");
    reveal_strlit("movie");
    reveal_strlit("quicktime-movie");
    reveal_strlit("mp4-movie");
    reveal_strlit("apple-protected-mp4-video");
    reveal_strlit("mpeg");
    reveal_strlit("mpeg2-video");
    reveal_strlit("avi");
    reveal_strlit("dv-movie");
    reveal_strlit("real-media");
    reveal_strlit("real-audio");
    reveal_strlit("webm");
    reveal_strlit("matroska");
    reveal_strlit("m3u-playlist");
    reveal_strlit("archive");
    reveal_strlit("zip");
    reveal_strlit("gzip");
    reveal_strlit("tar");
    reveal_strlit("bz2");
    reveal_strlit("apple-archive");
    reveal_strlit("sourcecode");
    reveal_strlit("c-source");
    reveal_strlit("c-header");
    reveal_strlit("cpp-source");
    reveal_strlit("cpp-header");
    reveal_strlit("objc-source");
    reveal_strlit("objc-plus-plus-source");
    reveal_strlit("swift-source");
    reveal_strlit("shell");
    reveal_strlit("makefile");
    assert(normalized(name_spec(SuperType::Javascript)) =~= "javascript"@);
    let n = normalized(name_spec(SuperType::Javascript));
    assert(n != "text"@) by {
        assert("javascript"@.len() != "text"@.len());
    }
    assert(n != "plain-text"@) by {
        assert("javascript"@[0] != "plain-text"@[0]);
    }
    assert(n != "csv"@) by {
        assert("javascript"@.len() != "csv"@.len());
    }
    assert(n != "json"@) by {
        assert("javascript"@.len() != "json"@.len());
    }
    assert(n != "xml"@) by {
        assert("javascript"@.len() != "xml"@.len());
    }
    assert(n != "yaml"@) by {
        assert("javascript"@.len() != "yaml"@.len());
    }
    assert(n != "html"@) by {
        assert("javascript"@.len() != "html"@.len());
    }
    assert(n != "markdown"@) by {
        assert("javascript"@.len() != "markdown"@.len());
    }
    assert(n != "rtf"@) by {
        assert("javascript"@.len() != "rtf"@.len());
    }
    assert(n != "image"@) by {
        assert("javascript"@.len() != "image"@.len());
    }
    assert(n != "raw-image"@) by {
        assert("javascript"@.len() != "raw-image"@.len());
    }
    assert(n != "png"@) by {
        assert("javascript"@.len() != "png"@.len());
    }
    assert(n != "jpeg"@) by {
        assert("javascript"@.len() != "jpeg"@.len());
    }
    assert(n != "gif"@) by {
        assert("javascript"@.len() != "gif"@.len());
    }
    assert(n != "tiff"@) by {
        assert("javascript"@.len() != "tiff"@.len());
    }
    assert(n != "svg"@) by {
        assert("javascript"@.len() != "svg"@.len());
    }
    assert(n != "webp"@) by {
        assert("javascript"@.len() != "webp"@.len());
    }
    assert(n != "heic"@) by {
        assert("javascript"@.len() != "heic"@.len());
    }
    assert(n != "heif"@) by {
        assert("javascript"@.len() != "heif"@.len());
    }
    assert(n != "bmp"@) by {
        assert("javascript"@.len() != "bmp"@.len());
    }
    assert(n != "audio"@) by {
        assert("javascript"@.len() != "audio"@.len());
    }
    assert(n != "mp3"@) by {
        assert("javascript"@.len() != "mp3"@.len());
    }
    assert(n != "wav"@) by {
        assert("javascript"@.len() != "wav"@.len());
    }
    assert(n != "aiff"@) by {
        assert("javascript"@.len() != "aiff"@.len());
    }
    assert(n != "midi"@) by {
        assert("javascript"@.len() != "midi"@.len());
    }
    assert(n != "mp4-audio"@) by {
        assert("javascript"@.len() != "mp4-audio"@.len());
    }
    assert(n != "apple-protected-mp4-audio"@) by {
        assert("javascript"@.len() != "apple-protected-mp4-audio"@.len());
    }
    assert(n != "flac"@) by {
        assert("javascript"@.len() != "flac"@.len());
    }
    assert(n != "ogg-audio"@) by {
        assert("javascript"@.len() != "ogg-audio"@.len());
    }
    assert(n != "ac3-audio"@) by {
        assert("javascript"@.len() != "ac3-audio"@.len());
    }
    assert(n != "aac-audio"@) by {
        assert("javascript"@.len() != "aac-audio"@.len());
    }
    assert(n != "video"@) by {
        assert("javascript"@.len() != "video"@.len());
    }
    assert(n != "mpeg2-transport-stream"@) by {
        assert("javascript"@.len() != "mpeg2-transport-stream"@.len());
    }
    assert(n != "movie"@) by {
        assert("javascript"@.len() != "movie"@.len());
    }
    assert(n != "quicktime-movie"@) by {
        assert("javascript"@.len() != "quicktime-movie"@.len());
    }
    assert(n != "mp4-movie"@) by {
        assert("javascript"@.len() != "mp4-movie"@.len());
    }
    assert(n != "apple-protected-mp4-video"@) by {
        assert("javascript"@.len() != "apple-protected-mp4-video"@.len());
    }
    assert(n != "mpeg"@) by {
        assert("javascript"@.len() != "mpeg"@.len());
    }
    assert(n != "mpeg2-video"@) by {
        assert("javascript"@.len() != "mpeg2-video"@.len());
    }
    assert(n != "avi"@) by {
        assert("javascript"@.len() != "avi"@.len());
    }
    assert(n != "dv-movie"@) by {
        assert("javascript"@.len() != "dv-movie"@.len());
    }
    assert(n != "real-media"@) by {
        assert("javascript"@[0] != "real-media"@[0]);
    }
    assert(n != "real-audio"@) by {
        assert("javascript"@[0] != "real-audio"@[0]);
    }
    assert(n != "webm"@) by {
        assert("javascript"@.len() != "webm"@.len());
    }
    assert(n != "matroska"@) by {
        assert("javascript"@.len() != "matroska"@.len());
    }
    assert(n != "m3u-playlist"@) by {
        assert("javascript"@.len() != "m3u-playlist"@.len());
    }
    assert(n != "archive"@) by {
        assert("javascript"@.len() != "archive"@.len());
    }
    assert(n != "zip"@) by {
        assert("javascript"@.len() != "zip"@.len());
    }
    assert(n != "gzip"@) by {
        assert("javascript"@.len() != "gzip"@.len());
    }
    assert(n != "tar"@) by {
        assert("javascript"@.len() != "tar"@.len());
    }
    assert(n != "bz2"@) by {
        assert("javascript"@.len() != "bz2"@.len());
    }
    assert(n != "apple-archive"@) by {
        assert("javascript"@.len() != "apple-archive"@.len());
    }
    assert(n != "sourcecode"@) by {
        assert("javascript"@[0] != "sourcecode"@[0]);
    }
    assert(n != "c-source"@) by {
        assert("javascript"@.len() != "c-source"@.len());
    }
    assert(n != "c-header"@) by {
        assert("javascript"@.len() != "c-header"@.len());
    }
    assert(n != "cpp-source"@) by {
        assert("javascript"@[0] != "cpp-source"@[0]);
    }
    assert(n != "cpp-header"@) by {
        assert("javascript"@[0] != "cpp-header"@[0]);
    }
    assert(n != "objc-source"@) by {
        assert("javascript"@.len() != "objc-source"@.len());
    }
    assert(n != "objc-plus-plus-source"@) by {
        assert("javascript"@.len() != "objc-plus-plus-source"@.len());
    }
    assert(n != "swift-source"@) by {
        assert("javascript"@.len() != "swift-source"@.len());
    }
    assert(n != "shell"@) by {
        assert("javascript"@.len() != "shell"@.len());
    }
    assert(n != "makefile"@) by {
        assert("javascript"@.len() != "makefile"@.len());
    }
    assert(parse_spec(n) == Some(SuperType::Javascript));
}

proof fn lemma_display_parse_pythonscript()
    ensures
        parse_spec(normalized(name_spec(SuperType::PythonScript))) == Some(SuperType::PythonScript),
{
    reveal_strlit("python-script");
    reveal_strlit("text");
    reveal_strlit("plain-text");
    reveal_strlit("csv");
    reveal_strlit("json");
    reveal_strlit("xml");
    reveal_strlit("yaml");
    reveal_strlit("html");
    reveal_strlit("markdown");
    reveal_strlit("rtf");
    reveal_strlit("image");
    reveal_strlit("raw-image");
    reveal_strlit("png");
    reveal_strlit("jpeg");
    reveal_strlit("gif");
    reveal_strlit("tiff");
    reveal_strlit("svg");
    reveal_strlit("webp");
    reveal_strlit("heic");
    reveal_strlit("heif");
    reveal_strlit("bmp");
    reveal_strlit("audio");
    reveal_strlit("mp3");
    reveal_strlit("wav");
    reveal_strlit("aiff");
    reveal_strlit("midi");
    reveal_strlit("mp4-audio");
    reveal_strlit("apple-protected-mp4-audio");
    reveal_strlit("flac");
    reveal_strlit("ogg-audio");
    reveal_strlit("ac3-audio");
    reveal_strlit("aac-audio");
    reveal_strlit("video");
    reveal_strlit("mpeg2-transport-stream");
    reveal_strlit("movie");
    reveal_strlit("quicktime-movie");
    reveal_strlit("mp4-movie");
    reveal_strlit("apple-protected-mp4-video");
    reveal_strlit("mpeg");
    reveal_strlit("mpeg2-video");
    reveal_strlit("avi");
    reveal_strlit("dv-movie");
    reveal_strlit("real-media");
    reveal_strlit("real-audio");
    reveal_strlit("webm");
    reveal_strlit("matroska");
    reveal_strlit("m3u-playlist");
    reveal_strlit("archive");
    reveal_strlit("zip");
    reveal_strlit("gzip");
    reveal_strlit("tar");
    reveal_strlit("bz2");
    reveal_strlit("apple-archive");
    reveal_strlit("sourcecode");
    reveal_strlit("c-source");
    reveal_strlit("c-header");
    reveal_strlit("cpp-source");
    reveal_strlit("cpp-header");
    reveal_strlit("objc-source");
    reveal_strlit("objc-plus-plus-source");
    reveal_strlit("swift-source");
    reveal_strlit("shell");
    reveal_strlit("makefile");
    reveal_strlit("javascript");
    assert(normalized(name_spec(SuperType::PythonScript)) =~= "python-script"@);
    let n = normalized(name_spec(SuperType::PythonScript));
    assert(n != "text"@) by {
        assert("python-script"@.len() != "text"@.len());
    }
    assert(n != "plain-text"@) by {
        assert("python-script"@.len() != "plain-text"@.len());
    }
    assert(n != "csv"@) by {
        assert("python-script"@.len() != "csv"@.len());
    }
    assert(n != "json"@) by {
        assert("python-script"@.len() != "json"@.len());
    }
    assert(n != "xml"@) by {
        assert("python-script"@.len() != "xml"@.len());
    }
    assert(n != "yaml"@) by {
        assert("python-script"@.len() != "yaml"@.len());
    }
    assert(n != "html"@) by {
        assert("python-script"@.len() != "html"@.len());
    }
    assert(n != "markdown"@) by {
        assert("python-script"@.len() != "markdown"@.len());
    }
    assert(n != "rtf"@) by {
        assert("python-script"@.len() != "rtf"@.len());
    }
    assert(n != "image"@) by {
        assert("python-script"@.len() != "image"@.len());
    }
    assert(n != "raw-image"@) by {
        assert("python-script"@.len() != "raw-image"@.len());
    }
    assert(n != "png"@) by {
        assert("python-script"@.len() != "png"@.len());
    }
    assert(n != "jpeg"@) by {
        assert("python-script"@.len() != "jpeg"@.len());
    }
    assert(n != "gif"@) by {
        assert("python-script"@.len() != "gif"@.len());
    }
    assert(n != "tiff"@) by {
        assert("python-script"@.len() != "tiff"@.len());
    }
    assert(n != "svg"@) by {
        assert("python-script"@.len() != "svg"@.len());
    }
    assert(n != "webp"@) by {
        assert("python-script"@.len() != "webp"@.len());
    }
    assert(n != "heic"@) by {
        assert("python-script"@.len() != "heic"@.len());
    }
    assert(n != "heif"@) by {
        assert("python-script"@.len() != "heif"@.len());
    }
    assert(n != "bmp"@) by {
        assert("python-script"@.len() != "bmp"@.len());
    }
    assert(n != "audio"@) by {
        assert("python-script"@.len() != "audio"@.len());
    }
    assert(n != "mp3"@) by {
        assert("python-script"@.len() != "mp3"@.len());
    }
    assert(n != "wav"@) by {
        assert("python-script"@.len() != "wav"@.len());
    }
    assert(n != "aiff"@) by {
        assert("python-script"@.len() != "aiff"@.len());
    }
    assert(n != "midi"@) by {
        assert("python-script"@.len() != "midi"@.len());
    }
    assert(n != "mp4-audio"@) by {
        assert("python-script"@.len() != "mp4-audio"@.len());
    }
    assert(n != "apple-protected-mp4-audio"@) by {
        assert("python-script"@.len() != "apple-protected-mp4-audio"@.len());
    }
    assert(n != "flac"@) by {
        assert("python-script"@.len() != "flac"@.len());
    }
    assert(n != "ogg-audio"@) by {
        assert("python-script"@.len() != "ogg-audio"@.len());
    }
    assert(n != "ac3-audio"@) by {
        assert("python-script"@.len() != "ac3-audio"@.len());
    }
    assert(n != "aac-audio"@) by {
        assert("python-script"@.len() != "aac-audio"@.len());
    }
    assert(n != "video"@) by {
        assert("python-script"@.len() != "video"@.len());
    }
    assert(n != "mpeg2-transport-stream"@) by {
        assert("python-script"@.len() != "mpeg2-transport-stream"@.len());
    }
    assert(n != "movie"@) by {
        assert("python-script"@.len() != "movie"@.len());
    }
    assert(n != "quicktime-movie"@) by {
        assert("python-script"@.len() != "quicktime-movie"@.len());
    }
    assert(n != "mp4-movie"@) by {
        assert("python-script"@.len() != "mp4-movie"@.len());
    }
    assert(n != "apple-protected-mp4-video"@) by {
        assert("python-script"@.len() != "apple-protected-mp4-video"@.len());
    }
    assert(n != "mpeg"@) by {
        assert("python-script"@.len() != "mpeg"@.len());
    }
    assert(n != "mpeg2-video"@) by {
        assert("python-script"@.len() != "mpeg2-video"@.len());
    }
    assert(n != "avi"@) by {
        assert("python-script"@.len() != "avi"@.len());
    }
    assert(n != "dv-movie"@) by {
        assert("python-script"@.len() != "dv-movie"@.len());
    }
    assert(n != "real-media"@) by {
        assert("python-script"@.len() != "real-media"@.len());
    }
    assert(n != "real-audio"@) by {
        assert("python-script"@.len() != "real-audio"@.len());
    }
    assert(n != "webm"@) by {
        assert("python-script"@.len() != "webm"@.len());
    }
    assert(n != "matroska"@) by {
        assert("python-script"@.len() != "matroska"@.len());
    }
    assert(n != "m3u-playlist"@) by {
        assert("python-script"@.len() != "m3u-playlist"@.len());
    }
    assert(n != "archive"@) by {
        assert("python-script"@.len() != "archive"@.len());
    }
    assert(n != "zip"@) by {
        assert("python-script"@.len() != "zip"@.len());
    }
    assert(n != "gzip"@) by {
        assert("python-script"@.len() != "gzip"@.len());
    }
    assert(n != "tar"@) by {
        assert("python-script"@.len() != "tar"@.len());
    }
    assert(n != "bz2"@) by {
        assert("python-script"@.len() != "bz2"@.len());
    }
    assert(n != "apple-archive"@) by {
        assert("python-script"@[0] != "apple-archive"@[0]);
    }
    assert(n != "sourcecode"@) by {
        assert("python-script"@.len() != "sourcecode"@.len());
    }
    assert(n != "c-source"@) by {
        assert("python-script"@.len() != "c-source"@.len());
    }
    assert(n != "c-header"@) by {
        assert("python-script"@.len() != "c-header"@.len());
    }
    assert(n != "cpp-source"@) by {
        assert("python-script"@.len() != "cpp-source"@.len());
    }
    assert(n != "cpp-header"@) by {
        assert("python-script"@.len() != "cpp-header"@.len());
    }
    assert(n != "objc-source"@) by {
        assert("python-script"@.len() != "objc-source"@.len());
    }
    assert(n != "objc-plus-plus-source"@) by {
        assert("python-script"@.len() != "objc-plus-plus-source"@.len());
    }
    assert(n != "swift-source"@) by {
        assert("python-script"@.len() != "swift-source"@.len());
    }
    assert(n != "shell"@) by {
        assert("python-script"@.len() != "shell"@.len());
    }
    assert(n != "makefile"@) by {
        assert("python-script"@.len() != "makefile"@.len());
    }
    assert(n != "javascript"@) by {
        assert("python-script"@.len() != "javascript"@.len());
    }
    assert(parse_spec(n) == Some(SuperType::PythonScript));
}

proof fn lemma_display_parse_rubyscript()
    ensures
        parse_spec(normalized(name_spec(SuperType::RubyScript))) == Some(SuperType::RubyScript),
{
    reveal_strlit("ruby-script");
    reveal_strlit("text");
    reveal_strlit("plain-text");
    reveal_strlit("csv");
    reveal_strlit("json");
    reveal_strlit("xml");
    reveal_strlit("yaml");
    reveal_strlit("html");
    reveal_strlit("markdown");
    reveal_strlit("rtf");
    reveal_strlit("image");
    reveal_strlit("raw-image");
    reveal_strlit("png");
    reveal_strlit("jpeg");
    reveal_strlit("gif");
    reveal_strlit("tiff");
    reveal_strlit("svg");
    reveal_strlit("webp");
    reveal_strlit("heic");
    reveal_strlit("heif");
    reveal_strlit("bmp");
    reveal_strlit("audio");
    reveal_strlit("mp3");
    reveal_strlit("wav");
    reveal_strlit("aiff");
    reveal_strlit("midi");
    reveal_strlit("mp4-audio");
    reveal_strlit("apple-protected-mp4-audio");
    reveal_strlit("flac");
    reveal_strlit("ogg-audio");
    reveal_strlit("ac3-audio");
    reveal_strlit("aac-audio");
    reveal_strlit("video");
    reveal_strlit("mpeg2-transport-stream");
    reveal_strlit("movie");
    reveal_strlit("quicktime-movie");
    reveal_strlit("mp4-movie");
    reveal_strlit("apple-protected-mp4-video");
    reveal_strlit("mpeg");
    reveal_strlit("mpeg2-video");
    reveal_strlit("avi");
    reveal_strlit("dv-movie");
    reveal_strlit("real-media");
    reveal_strlit("real-audio");
    reveal_strlit("webm");
    reveal_strlit("matroska");
    reveal_strlit("m3u-playlist");
    reveal_strlit("archive");
    reveal_strlit("zip");
    reveal_strlit("gzip");
    reveal_strlit("tar");
    reveal_strlit("bz2");
    reveal_strlit("apple-archive");
    reveal_strlit("sourcecode");
    reveal_strlit("c-source");
    reveal_strlit("c-header");
    reveal_strlit("cpp-source");
    reveal_strlit("cpp-header");
    reveal_strlit("objc-source");
    reveal_strlit("objc-plus-plus-source");
    reveal_strlit("swift-source");
    reveal_strlit("shell");
    reveal_strlit("makefile");
    reveal_strlit("javascript");
    reveal_strlit("python-script");
    assert(normalized(name_spec(SuperType::RubyScript)) =~= "ruby-script"@);
    let n = normalized(name_spec(SuperType::RubyScript));
    assert(n != "text"@) by {
        assert("ruby-script"@.len() != "text"@.len());
    }
    assert(n != "plain-text"@) by {
        assert("ruby-script"@.len() != "plain-text"@.len());
    }
    assert(n != "csv"@) by {
        assert("ruby-script"@.len() != "csv"@.len());
    }
    assert(n != "json"@) by {
        assert("ruby-script"@.len() != "json"@.len());
    }
    assert(n != "xml"@) by {
        assert("ruby-script"@.len() != "xml"@.len());
    }
    assert(n != "yaml"@) by {
        assert("ruby-script"@.len() != "yaml"@.len());
    }
    assert(n != "html"@) by {
        assert("ruby-script"@.len() != "html"@.len());
    }
    assert(n != "markdown"@) by {
        assert("ruby-script"@.len() != "markdown"@.len());
    }
    assert(n != "rtf"@) by {
        assert("ruby-script"@.len() != "rtf"@.len());
    }
    assert(n != "image"@) by {
        assert("ruby-script"@.len() != "image"@.len());
    }
    assert(n != "raw-image"@) by {
        assert("ruby-script"@.len() != "raw-image"@.len());
    }
    assert(n != "png"@) by {
        assert("ruby-script"@.len() != "png"@.len());
    }
    assert(n != "jpeg"@) by {
        assert("ruby-script"@.len() != "jpeg"@.len());
    }
    assert(n != "gif"@) by {
        assert("ruby-script"@.len() != "gif"@.len());
    }
    assert(n != "tiff"@) by {
        assert("ruby-script"@.len() != "tiff"@.len());
    }
    assert(n != "svg"@) by {
        assert("ruby-script"@.len() != "svg"@.len());
    }
    assert(n != "webp"@) by {
        assert("ruby-script"@.len() != "webp"@.len());
    }
    assert(n != "heic"@) by {
        assert("ruby-script"@.len() != "heic"@.len());
    }
    assert(n != "heif"@) by {
        assert("ruby-script"@.len() != "heif"@.len());
    }
    assert(n != "bmp"@) by {
        assert("ruby-script"@.len() != "bmp"@.len());
    }
    assert(n != "audio"@) by {
        assert("ruby-script"@.len() != "audio"@.len());
    }
    assert(n != "mp3"@) by {
        assert("ruby-script"@.len() != "mp3"@.len());
    }
    assert(n != "wav"@) by {
        assert("ruby-script"@.len() != "wav"@.len());
    }
    assert(n != "aiff"@) by {
        assert("ruby-script"@.len() != "aiff"@.len());
    }
    assert(n != "midi"@) by {
        assert("ruby-script"@.len() != "midi"@.len());
    }
    assert(n != "mp4-audio"@) by {
        assert("ruby-script"@.len() != "mp4-audio"@.len());
    }
    assert(n != "apple-protected-mp4-audio"@) by {
        assert("ruby-script"@.len() != "apple-protected-mp4-audio"@.len());
    }
    assert(n != "flac"@) by {
        assert("ruby-script"@.len() != "flac"@.len());
    }
    assert(n != "ogg-audio"@) by {
        assert("ruby-script"@.len() != "ogg-audio"@.len());
    }
    assert(n != "ac3-audio"@) by {
        assert("ruby-script"@.len() != "ac3-audio"@.len());
    }
    assert(n != "aac-audio"@) by {
        assert("ruby-script"@.len() != "aac-audio"@.len());
    }
    assert(n != "video"@) by {
        assert("ruby-script"@.len() != "video"@.len());
    }
    assert(n != "mpeg2-transport-stream"@) by {
        assert("ruby-script"@.len() != "mpeg2-transport-stream"@.len());
    }
    assert(n != "movie"@) by {
        assert("ruby-script"@.len() != "movie"@.len());
    }
    assert(n != "quicktime-movie"@) by {
        assert("ruby-script"@.len() != "quicktime-movie"@.len());
    }
    assert(n != "mp4-movie"@) by {
        assert("ruby-script"@.len() != "mp4-movie"@.len());
    }
    assert(n != "apple-protected-mp4-video"@) by {
        assert("ruby-script"@.len() != "apple-protected-mp4-video"@.len());
    }
    assert(n != "mpeg"@) by {
        assert("ruby-script"@.len() != "mpeg"@.len());
    }
    assert(n != "mpeg2-video"@) by {
        assert("ruby-script"@[0] != "mpeg2-video"@[0]);
    }
    assert(n != "avi"@) by {
        assert("ruby-script"@.len() != "avi"@.len());
    }
    assert(n != "dv-movie"@) by {
        assert("ruby-script"@.len() != "dv-movie"@.len());
    }
    assert(n != "real-media"@) by {
        assert("ruby-script"@.len() != "real-media"@.len());
    }
    assert(n != "real-audio"@) by {
        assert("ruby-script"@.len() != "real-audio"@.len());
    }
    assert(n != "webm"@) by {
        assert("ruby-script"@.len() != "webm"@.len());
    }
    assert(n != "matroska"@) by {
        assert("ruby-script"@.len() != "matroska"@.len());
    }
    assert(n != "m3u-playlist"@) by {
        assert("ruby-script"@.len() != "m3u-playlist"@.len());
    }
    assert(n != "archive"@) by {
        assert("ruby-script"@.len() != "archive"@.len());
    }
    assert(n != "zip"@) by {
        assert("ruby-script"@.len() != "zip"@.len());
    }
    assert(n != "gzip"@) by {
        assert("ruby-script"@.len() != "gzip"@.len());
    }
    assert(n != "tar"@) by {
        assert("ruby-script"@.len() != "tar"@.len());
    }
    assert(n != "bz2"@) by {
        assert("ruby-script"@.len() != "bz2"@.len());
    }
    assert(n != "apple-archive"@) by {
        assert("ruby-script"@.len() != "apple-archive"@.len());
    }
    assert(n != "sourcecode"@) by {
        assert("ruby-script"@.len() != "sourcecode"@.len());
    }
    assert(n != "c-source"@) by {
        assert("ruby-script"@.len() != "c-source"@.len());
    }
    assert(n != "c-header"@) by {
        assert("ruby-script"@.len() != "c-header"@.len());
    }
    assert(n != "cpp-source"@) by {
        assert("ruby-script"@.len() != "cpp-source"@.len());
    }
    assert(n != "cpp-header"@) by {
        assert("ruby-script"@.len() != "cpp-header"@.len());
    }
    assert(n != "objc-source"@) by {
        assert("ruby-script"@[0] != "objc-source"@[0]);
    }
    assert(n != "objc-plus-plus-source"@) by {
        assert("ruby-script"@.len() != "objc-plus-plus-source"@.len());
    }
    assert(n != "swift-source"@) by {
        assert("ruby-script"@.len() != "swift-source"@.len());
    }
    assert(n != "shell"@) by {
        assert("ruby-script"@.len() != "shell"@.len());
    }
    assert(n != "makefile"@) by {
        assert("ruby-script"@.len() != "makefile"@.len());
    }
    assert(n != "javascript"@) by {
        assert("ruby-script"@.len() != "javascript"@.len());
    }
    assert(n != "python-script"@) by {
        assert("ruby-script"@.len() != "python-script"@.len());
    }
    assert(parse_spec(n) == Some(SuperType::RubyScript));
}

proof fn lemma_display_parse_perlscript()
    ensures
        parse_spec(normalized(name_spec(SuperType::PerlScript))) == Some(SuperType::PerlScript),
{
    reveal_strlit("perl-script");
    reveal_strlit("text");
    reveal_strlit("plain-text");
    reveal_strlit("csv");
    reveal_strlit("json");
    reveal_strlit("xml");
    reveal_strlit("yaml");
    reveal_strlit("html");
    reveal_strlit("markdown");
    reveal_strlit("rtf");
    reveal_strlit("image");
    reveal_strlit("raw-image");
    reveal_strlit("png");
    reveal_strlit("jpeg");
    reveal_strlit("gif");
    reveal_strlit("tiff");
    reveal_strlit("svg");
    reveal_strlit("webp");
    reveal_strlit("heic");
    reveal_strlit("heif");
    reveal_strlit("bmp");
    reveal_strlit("audio");
    reveal_strlit("mp3");
    reveal_strlit("wav");
    reveal_strlit("aiff");
    reveal_strlit("midi");
    reveal_strlit("mp4-audio");
    reveal_strlit("apple-protected-mp4-audio");
    reveal_strlit("flac");
    reveal_strlit("ogg-audio");
    reveal_strlit("ac3-audio");
    reveal_strlit("aac-audio");
    reveal_strlit("video");
    reveal_strlit("mpeg2-transport-stream");
    reveal_strlit("movie");
    reveal_strlit("quicktime-movie");
    reveal_strlit("mp4-movie");
    reveal_strlit("apple-protected-mp4-video");
    reveal_strlit("mpeg");
    reveal_strlit("mpeg2-video");
    reveal_strlit("avi");
    reveal_strlit("dv-movie");
    reveal_strlit("real-media");
    reveal_strlit("real-audio");
    reveal_strlit("webm");
    reveal_strlit("matroska");
    reveal_strlit("m3u-playlist");
    reveal_strlit("archive");
    reveal_strlit("zip");
    reveal_strlit("gzip");
    reveal_strlit("tar");
    reveal_strlit("bz2");
    reveal_strlit("apple-archive");
    reveal_strlit("sourcecode");
    reveal_strlit("c-source");
    reveal_strlit("c-header");
    reveal_strlit("cpp-source");
    reveal_strlit("cpp-header");
    reveal_strlit("objc-source");
    reveal_strlit("objc-plus-plus-source");
    reveal_strlit("swift-source");
    reveal_strlit("shell");
    reveal_strlit("makefile");
    reveal_strlit("javascript");
    reveal_strlit("python-script");
    reveal_strlit("ruby-script");
    assert(normalized(name_spec(SuperType::PerlScript)) =~= "perl-script"@);
    let n = normalized(name_spec(SuperType::PerlScript));
    assert(n != "text"@) by {
        assert("perl-script"@.len() != "text"@.len());
    }
    assert(n != "plain-text"@) by {
        assert("perl-script"@.len() != "plain-text"@.len());
    }
    assert(n != "csv"@) by {
        assert("perl-script"@.len() != "csv"@.len());
    }
    assert(n != "json"@) by {
        assert("perl-script"@.len() != "json"@.len());
    }
    assert(n != "xml"@) by {
        assert("perl-script"@.len() != "xml"@.len());
    }
    assert(n != "yaml"@) by {
        assert("perl-script"@.len() != "yaml"@.len());
    }
    assert(n != "html"@) by {
        assert("perl-script"@.len() != "html"@.len());
    }
    assert(n != "markdown"@) by {
        assert("perl-script"@.len() != "markdown"@.len());
    }
    assert(n != "rtf"@) by {
        assert("perl-script"@.len() != "rtf"@.len());
    }
    assert(n != "image"@) by {
        assert("perl-script"@.len() != "image"@.len());
    }
    assert(n != "raw-image"@) by {
        assert("perl-script"@.len() != "raw-image"@.len());
    }
    assert(n != "png"@) by {
        assert("perl-script"@.len() != "png"@.len());
    }
    assert(n != "jpeg"@) by {
        assert("perl-script"@.len() != "jpeg"@.len());
    }
    assert(n != "gif"@) by {
        assert("perl-script"@.len() != "gif"@.len());
    }
    assert(n != "tiff"@) by {
        assert("perl-script"@.len() != "tiff"@.len());
    }
    assert(n != "svg"@) by {
        assert("perl-script"@.len() != "svg"@.len());
    }
    assert(n != "webp"@) by {
        assert("perl-script"@.len() != "webp"@.len());
    }
    assert(n != "heic"@) by {
        assert("perl-script"@.len() != "heic"@.len());
    }
    assert(n != "heif"@) by {
        assert("perl-script"@.len() != "heif"@.len());
    }
    assert(n != "bmp"@) by {
        assert("perl-script"@.len() != "bmp"@.len());
    }
    assert(n != "audio"@) by {
        assert("perl-script"@.len() != "audio"@.len());
    }
    assert(n != "mp3"@) by {
        assert("perl-script"@.len() != "mp3"@.len());
    }
    assert(n != "wav"@) by {
        assert("perl-script"@.len() != "wav"@.len());
    }
    assert(n != "aiff"@) by {
        assert("perl-script"@.len() != "aiff"@.len());
    }
    assert(n != "midi"@) by {
        assert("perl-script"@.len() != "midi"@.len());
    }
    assert(n != "mp4-audio"@) by {
        assert("perl-script"@.len() != "mp4-audio"@.len());
    }
    assert(n != "apple-protected-mp4-audio"@) by {
        assert("perl-script"@.len() != "apple-protected-mp4-audio"@.len());
    }
    assert(n != "flac"@) by {
        assert("perl-script"@.len() != "flac"@.len());
    }
    assert(n != "ogg-audio"@) by {
        assert("perl-script"@.len() != "ogg-audio"@.len());
    }
    assert(n != "ac3-audio"@) by {
        assert("perl-script"@.len() != "ac3-audio"@.len());
    }
    assert(n != "aac-audio"@) by {
        assert("perl-script"@.len() != "aac-audio"@.len());
    }
    assert(n != "video"@) by {
        assert("perl-script"@.len() != "video"@.len());
    }
    assert(n != "mpeg2-transport-stream"@) by {
        assert("perl-script"@.len() != "mpeg2-transport-stream"@.len());
    }
    assert(n != "movie"@) by {
        assert("perl-script"@.len() != "movie"@.len());
    }
    assert(n != "quicktime-movie"@) by {
        assert("perl-script"@.len() != "quicktime-movie"@.len());
    }
    assert(n != "mp4-movie"@) by {
        assert("perl-script"@.len() != "mp4-movie"@.len());
    }
    assert(n != "apple-protected-mp4-video"@) by {
        assert("perl-script"@.len() != "apple-protected-mp4-video"@.len());
    }
    assert(n != "mpeg"@) by {
        assert("perl-script"@.len() != "mpeg"@.len());
    }
    assert(n != "mpeg2-video"@) by {
        assert("perl-script"@[0] != "mpeg2-video"@[0]);
    }
    assert(n != "avi"@) by {
        assert("perl-script"@.len() != "avi"@.len());
    }
    assert(n != "dv-movie"@) by {
        assert("perl-script"@.len() != "dv-movie"@.len());
    }
    assert(n != "real-media"@) by {
        assert("perl-script"@.len() != "real-media"@.len());
    }
    assert(n != "real-audio"@) by {
        assert("perl-script"@.len() != "real-audio"@.len());
    }
    assert(n != "webm"@) by {
        assert("perl-script"@.len() != "webm"@.len());
    }
    assert(n != "matroska"@) by {
        assert("perl-script"@.len() != "matroska"@.len());
    }
    assert(n != "m3u-playlist"@) by {
        assert("perl-script"@.len() != "m3u-playlist"@.len());
    }
    assert(n != "archive"@) by {
        assert("perl-script"@.len() != "archive"@.len());
    }
    assert(n != "zip"@) by {
        assert("perl-script"@.len() != "zip"@.len());
    }
    assert(n != "gzip"@) by {
        assert("perl-script"@.len() != "gzip"@.len());
    }
    assert(n != "tar"@) by {
        assert("perl-script"@.len() != "tar"@.len());
    }
    assert(n != "bz2"@) by {
        assert("perl-script"@.len() != "bz2"@.len());
    }
    assert(n != "apple-archive"@) by {
        assert("perl-script"@.len() != "apple-archive"@.len());
    }
    assert(n != "sourcecode"@) by {
        assert("perl-script"@.len() != "sourcecode"@.len());
    }
    assert(n != "c-source"@) by {
        assert("perl-script"@.len() != "c-source"@.len());
    }
    assert(n != "c-header"@) by {
        assert("perl-script"@.len() != "c-header"@.len());
    }
    assert(n != "cpp-source"@) by {
        assert("perl-script"@.len() != "cpp-source"@.len());
    }
    assert(n != "cpp-header"@) by {
        assert("perl-script"@.len() != "cpp-header"@.len());
    }
    assert(n != "objc-source"@) by {
        assert("perl-script"@[0] != "objc-source"@[0]);
    }
    assert(n != "objc-plus-plus-source"@) by {
        assert("perl-script"@.len() != "objc-plus-plus-source"@.len());
    }
    assert(n != "swift-source"@) by {
        assert("perl-script"@.len() != "swift-source"@.len());
    }
    assert(n != "shell"@) by {
        assert("perl-script"@.len() != "shell"@.len());
    }
    assert(n != "makefile"@) by {
        assert("perl-script"@.len() != "makefile"@.len());
    }
    assert(n != "javascript"@) by {
        assert("perl-script"@.len() != "javascript"@.len());
    }
    assert(n != "python-script"@) by {
        assert("perl-script"@.len() != "python-script"@.len());
    }
    assert(n != "ruby-script"@) by {
        assert("perl-script"@[0] != "ruby-script"@[0]);
    }
    assert(parse_spec(n) == Some(SuperType::PerlScript));
}

proof fn lemma_display_parse_phpscript()
    ensures
        parse_spec(normalized(name_spec(SuperType::PhpScript))) == Some(SuperType::PhpScript),
{
    reveal_strlit("php-script");
    reveal_strlit("text");
    reveal_strlit("plain-text");
    reveal_strlit("csv");
    reveal_strlit("json");
    reveal_strlit("xml");
    reveal_strlit("yaml");
    reveal_strlit("html");
    reveal_strlit("markdown");
    reveal_strlit("rtf");
    reveal_strlit("image");
    reveal_strlit("raw-image");
    reveal_strlit("png");
    reveal_strlit("jpeg");
    reveal_strlit("gif");
    reveal_strlit("tiff");
    reveal_strlit("svg");
    reveal_strlit("webp");
    reveal_strlit("heic");
    reveal_strlit("heif");
    reveal_strlit("bmp");
    reveal_strlit("audio");
    reveal_strlit("mp3");
    reveal_strlit("wav");
    reveal_strlit("aiff");
    reveal_strlit("midi");
    reveal_strlit("mp4-audio");
    reveal_strlit("apple-protected-mp4-audio");
    reveal_strlit("flac");
    reveal_strlit("ogg-audio");
    reveal_strlit("ac3-audio");
    reveal_strlit("aac-audio");
    reveal_strlit("video");
    reveal_strlit("mpeg2-transport-stream");
    reveal_strlit("movie");
    reveal_strlit("quicktime-movie");
    reveal_strlit("mp4-movie");
    reveal_strlit("apple-protected-mp4-video");
    reveal_strlit("mpeg");
    reveal_strlit("mpeg2-video");
    reveal_strlit("avi");
    reveal_strlit("dv-movie");
    reveal_strlit("real-media");
    reveal_strlit("real-audio");
    reveal_strlit("webm");
    reveal_strlit("matroska");
    reveal_strlit("m3u-playlist");
    reveal_strlit("archive");
    reveal_strlit("zip");
    reveal_strlit("gzip");
    reveal_strlit("tar");
    reveal_strlit("bz2");
    reveal_strlit("apple-archive");
    reveal_strlit("sourcecode");
    reveal_strlit("c-source");
    reveal_strlit("c-header");
    reveal_strlit("cpp-source");
    reveal_strlit("cpp-header");
    reveal_strlit("objc-source");
    reveal_strlit("objc-plus-plus-source");
    reveal_strlit("swift-source");
    reveal_strlit("shell");
    reveal_strlit("makefile");
    reveal_strlit("javascript");
    reveal_strlit("python-script");
    reveal_strlit("ruby-script");
    reveal_strlit("perl-script");
    assert(normalized(name_spec(SuperType::PhpScript)) =~= "php-script"@);
    let n = normalized(name_spec(SuperType::PhpScript));
    assert(n != "text"@) by {
        assert("php-script"@.len() != "text"@.len());
    }
    assert(n != "plain-text"@) by {
        assert("php-script"@[1] != "plain-text"@[1]);
    }
    assert(n != "csv"@) by {
        assert("php-script"@.len() != "csv"@.len());
    }
    assert(n != "json"@) by {
        assert("php-script"@.len() != "json"@.len());
    }
    assert(n != "xml"@) by {
        assert("php-script"@.len() != "xml"@.len());
    }
    assert(n != "yaml"@) by {
        assert("php-script"@.len() != "yaml"@.len());
    }
    assert(n != "html"@) by {
        assert("php-script"@.len() != "html"@.len());
    }
    assert(n != "markdown"@) by {
        assert("php-script"@.len() != "markdown"@.len());
    }
    assert(n != "rtf"@) by {
        assert("php-script"@.len() != "rtf"@.len());
    }
    assert(n != "image"@) by {
        assert("php-script"@.len() != "image"@.len());
    }
    assert(n != "raw-image"@) by {
        assert("php-script"@.len() != "raw-image"@.len());
    }
    assert(n != "png"@) by {
        assert("php-script"@.len() != "png"@.len());
    }
    assert(n != "jpeg"@) by {
        assert("php-script"@.len() != "jpeg"@.len());
    }
    assert(n != "gif"@) by {
        assert("php-script"@.len() != "gif"@.len());
    }
    assert(n != "tiff"@) by {
        assert("php-script"@.len() != "tiff"@.len());
    }
    assert(n != "svg"@) by {
        assert("php-script"@.len() != "svg"@.len());
    }
    assert(n != "webp"@) by {
        assert("php-script"@.len() != "webp"@.len());
    }
    assert(n != "heic"@) by {
        assert("php-script"@.len() != "heic"@.len());
    }
    assert(n != "heif"@) by {
        assert("php-script"@.len() != "heif"@.len());
    }
    assert(n != "bmp"@) by {
        assert("php-script"@.len() != "bmp"@.len());
    }
    assert(n != "audio"@) by {
        assert("php-script"@.len() != "audio"@.len());
    }
    assert(n != "mp3"@) by {
        assert("php-script"@.len() != "mp3"@.len());
    }
    assert(n != "wav"@) by {
        assert("php-script"@.len() != "wav"@.len());
    }
    assert(n != "aiff"@) by {
        assert("php-script"@.len() != "aiff"@.len());
    }
    assert(n != "midi"@) by {
        assert("php-script"@.len() != "midi"@.len());
    }
    assert(n != "mp4-audio"@) by {
        assert("php-script"@.len() != "mp4-audio"@.len());
    }
    assert(n != "apple-protected-mp4-audio"@) by {
        assert("php-script"@.len() != "apple-protected-mp4-audio"@.len());
    }
    assert(n != "flac"@) by {
        assert("php-script"@.len() != "flac"@.len());
    }
    assert(n != "ogg-audio"@) by {
        assert("php-script"@.len() != "ogg-audio"@.len());
    }
    assert(n != "ac3-audio"@) by {
        assert("php-script"@.len() != "ac3-audio"@.len());
    }
    assert(n != "aac-audio"@) by {
        assert("php-script"@.len() != "aac-audio"@.len());
    }
    assert(n != "video"@) by {
        assert("php-script"@.len() != "video"@.len());
    }
    assert(n != "mpeg2-transport-stream"@) by {
        assert("php-script"@.len() != "mpeg2-transport-stream"@.len());
    }
    assert(n != "movie"@) by {
        assert("php-script"@.len() != "movie"@.len());
    }
    assert(n != "quicktime-movie"@) by {
        assert("php-script"@.len() != "quicktime-movie"@.len());
    }
    assert(n != "mp4-movie"@) by {
        assert("php-script"@.len() != "mp4-movie"@.len());
    }
    assert(n != "apple-protected-mp4-video"@) by {
        assert("php-script"@.len() != "apple-protected-mp4-video"@.len());
    }
    assert(n != "mpeg"@) by {
        assert("php-script"@.len() != "mpeg"@.len());
    }
    assert(n != "mpeg2-video"@) by {
        assert("php-script"@.len() != "mpeg2-video"@.len());
    }
    assert(n != "avi"@) by {
        assert("php-script"@.len() != "avi"@.len());
    }
    assert(n != "dv-movie"@) by {
        assert("php-script"@.len() != "dv-movie"@.len());
    }
    assert(n != "real-media"@) by {
        assert("php-script"@[0] != "real-media"@[0]);
    }
    assert(n != "real-audio"@) by {
        assert("php-script"@[0] != "real-audio"@[0]);
    }
    assert(n != "webm"@) by {
        assert("php-script"@.len() != "webm"@.len());
    }
    assert(n != "matroska"@) by {
        assert("php-script"@.len() != "matroska"@.len());
    }
    assert(n != "m3u-playlist"@) by {
        assert("php-script"@.len() != "m3u-playlist"@.len());
    }
    assert(n != "archive"@) by {
        assert("php-script"@.len() != "archive"@.len());
    }
    assert(n != "zip"@) by {
        assert("php-script"@.len() != "zip"@.len());
    }
    assert(n != "gzip"@) by {
        assert("php-script"@.len() != "gzip"@.len());
    }
    assert(n != "tar"@) by {
        assert("php-script"@.len() != "tar"@.len());
    }
    assert(n != "bz2"@) by {
        assert("php-script"@.len() != "bz2"@.len());
    }
    assert(n != "apple-archive"@) by {
        assert("php-script"@.len() != "apple-archive"@.len());
    }
    assert(n != "sourcecode"@) by {
        assert("php-script"@[0] != "sourcecode"@[0]);
    }
    assert(n != "c-source"@) by {
        assert("php-script"@.len() != "c-source"@.len());
    }
    assert(n != "c-header"@) by {
        assert("php-script"@.len() != "c-header"@.len());
    }
    assert(n != "cpp-source"@) by {
        assert("php-script"@[0] != "cpp-source"@[0]);
    }
    assert(n != "cpp-header"@) by {
        assert("php-script"@[0] != "cpp-header"@[0]);
    }
    assert(n != "objc-source"@) by {
        assert("php-script"@.len() != "objc-source"@.len());
    }
    assert(n != "objc-plus-plus-source"@) by {
        assert("php-script"@.len() != "objc-plus-plus-source"@.len());
    }
    assert(n != "swift-source"@) by {
        assert("php-script"@.len() != "swift-source"@.len());
    }
    assert(n != "shell"@) by {
        assert("php-script"@.len() != "shell"@.len());
    }
    assert(n != "makefile"@) by {
        assert("php-script"@.len() != "makefile"@.len());
    }
    assert(n != "javascript"@) by {
        assert("php-script"@[0] != "javascript"@[0]);
    }
    assert(n != "python-script"@) by {
        assert("php-script"@.len() != "python-script"@.len());
    }
    assert(n != "ruby-script"@) by {
        assert("php-script"@.len() != "ruby-script"@.len());
    }
    assert(n != "perl-script"@) by {
        assert("php-script"@.len() != "perl-script"@.len());
    }
    assert(parse_spec(n) == Some(SuperType::PhpScript));
}

proof fn lemma_display_parse_applescript()
    ensures
        parse_spec(normalized(name_spec(SuperType::AppleScript))) == Some(SuperType::AppleScript),
{
    reveal_strlit("apple-script");
    reveal_strlit("text");
    reveal_strlit("plain-text");
    reveal_strlit("csv");
    reveal_strlit("json");
    reveal_strlit("xml");
    reveal_strlit("yaml");
    reveal_strlit("html");
    reveal_strlit("markdown");
    reveal_strlit("rtf");
    reveal_strlit("image");
    reveal_strlit("raw-image");
    reveal_strlit("png");
    reveal_strlit("jpeg");
    reveal_strlit("gif");
    reveal_strlit("tiff");
    reveal_strlit("svg");
    reveal_strlit("webp");
    reveal_strlit("heic");
    reveal_strlit("heif");
    reveal_strlit("bmp");
    reveal_strlit("audio");
    reveal_strlit("mp3");
    reveal_strlit("wav");
    reveal_strlit("aiff");
    reveal_strlit("midi");
    reveal_strlit("mp4-audio");
    reveal_strlit("apple-protected-mp4-audio");
    reveal_strlit("flac");
    reveal_strlit("ogg-audio");
    reveal_strlit("ac3-audio");
    reveal_strlit("aac-audio");
    reveal_strlit("video");
    reveal_strlit("mpeg2-transport-stream");
    reveal_strlit("movie");
    reveal_strlit("quicktime-movie");
    reveal_strlit("mp4-movie");
    reveal_strlit("apple-protected-mp4-video");
    reveal_strlit("mpeg");
    reveal_strlit("mpeg2-video");
    reveal_strlit("avi");
    reveal_strlit("dv-movie");
    reveal_strlit("real-media");
    reveal_strlit("real-audio");
    reveal_strlit("webm");
    reveal_strlit("matroska");
    reveal_strlit("m3u-playlist");
    reveal_strlit("archive");
    reveal_strlit("zip");
    reveal_strlit("gzip");
    reveal_strlit("tar");
    reveal_strlit("bz2");
    reveal_strlit("apple-archive");
    reveal_strlit("sourcecode");
    reveal_strlit("c-source");
    reveal_strlit("c-header");
    reveal_strlit("cpp-source");
    reveal_strlit("cpp-header");
    reveal_strlit("objc-source");
    reveal_strlit("objc-plus-plus-source");
    reveal_strlit("swift-source");
    reveal_strlit("shell");
    reveal_strlit("makefile");
    reveal_strlit("javascript");
    reveal_strlit("python-script");
    reveal_strlit("ruby-script");
    reveal_strlit("perl-script");
    reveal_strlit("php-script");
    assert(normalized(name_spec(SuperType::AppleScript)) =~= "apple-script"@);
    let n = normalized(name_spec(SuperType::AppleScript));
    assert(n != "text"@) by {
        assert("apple-script"@.len() != "text"@.len());
    }
    assert(n != "plain-text"@) by {
        assert("apple-script"@.len() != "plain-text"@.len());
    }
    assert(n != "csv"@) by {
        assert("apple-script"@.len() != "csv"@.len());
    }
    assert(n != "json"@) by {
        assert("apple-script"@.len() != "json"@.len());
    }
    assert(n != "xml"@) by {
        assert("apple-script"@.len() != "xml"@.len());
    }
    assert(n != "yaml"@) by {
        assert("apple-script"@.len() != "yaml"@.len());
    }
    assert(n != "html"@) by {
        assert("apple-script"@.len() != "html"@.len());
    }
    assert(n != "markdown"@) by {
        assert("apple-script"@.len() != "markdown"@.len());
    }
    assert(n != "rtf"@) by {
        assert("apple-script"@.len() != "rtf"@.len());
    }
    assert(n != "image"@) by {
        assert("apple-script"@.len() != "image"@.len());
    }
    assert(n != "raw-image"@) by {
        assert("apple-script"@.len() != "raw-image"@.len());
    }
    assert(n != "png"@) by {
        assert("apple-script"@.len() != "png"@.len());
    }
    assert(n != "jpeg"@) by {
        assert("apple-script"@.len() != "jpeg"@.len());
    }
    assert(n != "gif"@) by {
        assert("apple-script"@.len() != "gif"@.len());
    }
    assert(n != "tiff"@) by {
        assert("apple-script"@.len() != "tiff"@.len());
    }
    assert(n != "svg"@) by {
        assert("apple-script"@.len() != "svg"@.len());
    }
    assert(n != "webp"@) by {
        assert("apple-script"@.len() != "webp"@.len());
    }
    assert(n != "heic"@) by {
        assert("apple-script"@.len() != "heic"@.len());
    }
    assert(n != "heif"@) by {
        assert("apple-script"@.len() != "heif"@.len());
    }
    assert(n != "bmp"@) by {
        assert("apple-script"@.len() != "bmp"@.len());
    }
    assert(n != "audio"@) by {
        assert("apple-script"@.len() != "audio"@.len());
    }
    assert(n != "mp3"@) by {
        assert("apple-script"@.len() != "mp3"@.len());
    }
    assert(n != "wav"@) by {
        assert("apple-script"@.len() != "wav"@.len());
    }
    assert(n != "aiff"@) by {
        assert("apple-script"@.len() != "aiff"@.len());
    }
    assert(n != "midi"@) by {
        assert("apple-script"@.len() != "midi"@.len());
    }
    assert(n != "mp4-audio"@) by {
        assert("apple-script"@.len() != "mp4-audio"@.len());
    }
    assert(n != "apple-protected-mp4-audio"@) by {
        assert("apple-script"@.len() != "apple-protected-mp4-audio"@.len());
    }
    assert(n != "flac"@) by {
        assert("apple-script"@.len() != "flac"@.len());
    }
    assert(n != "ogg-audio"@) by {
        assert("apple-script"@.len() != "ogg-audio"@.len());
    }
    assert(n != "ac3-audio"@) by {
        assert("apple-script"@.len() != "ac3-audio"@.len());
    }
    assert(n != "aac-audio"@) by {
        assert("apple-script"@.len() != "aac-audio"@.len());
    }
    assert(n != "video"@) by {
        assert("apple-script"@.len() != "video"@.len());
    }
    assert(n != "mpeg2-transport-stream"@) by {
        assert("apple-script"@.len() != "mpeg2-transport-stream"@.len());
    }
    assert(n != "movie"@) by {
        assert("apple-script"@.len() != "movie"@.len());
    }
    assert(n != "quicktime-movie"@) by {
        assert("apple-script"@.len() != "quicktime-movie"@.len());
    }
    assert(n != "mp4-movie"@) by {
        assert("apple-script"@.len() != "mp4-movie"@.len());
    }
    assert(n != "apple-protected-mp4-video"@) by {
        assert("apple-script"@.len() != "apple-protected-mp4-video"@.len());
    }
    assert(n != "mpeg"@) by {
        assert("apple-script"@.len() != "mpeg"@.len());
    }
    assert(n != "mpeg2-video"@) by {
        assert("apple-script"@.len() != "mpeg2-video"@.len());
    }
    assert(n != "avi"@) by {
        assert("apple-script"@.len() != "avi"@.len());
    }
    assert(n != "dv-movie"@) by {
        assert("apple-script"@.len() != "dv-movie"@.len());
    }
    assert(n != "real-media"@) by {
        assert("apple-script"@.len() != "real-media"@.len());
    }
    assert(n != "real-audio"@) by {
        assert("apple-script"@.len() != "real-audio"@.len());
    }
    assert(n != "webm"@) by {
        assert("apple-script"@.len() != "webm"@.len());
    }
    assert(n != "matroska"@) by {
        assert("apple-script"@.len() != "matroska"@.len());
    }
    assert(n != "m3u-playlist"@) by {
        assert("apple-script"@[0] != "m3u-playlist"@[0]);
    }
    assert(n != "archive"@) by {
        assert("apple-script"@.len() != "archive"@.len());
    }
    assert(n != "zip"@) by {
        assert("apple-script"@.len() != "zip"@.len());
    }
    assert(n != "gzip"@) by {
        assert("apple-script"@.len() != "gzip"@.len());
    }
    assert(n != "tar"@) by {
        assert("apple-script"@.len() != "tar"@.len());
    }
    assert(n != "bz2"@) by {
        assert("apple-script"@.len() != "bz2"@.len());
    }
    assert(n != "apple-archive"@) by {
        assert("apple-script"@.len() != "apple-archive"@.len());
    }
    assert(n != "sourcecode"@) by {
        assert("apple-script"@.len() != "sourcecode"@.len());
    }
    assert(n != "c-source"@) by {
        assert("apple-script"@.len() != "c-source"@.len());
    }
    assert(n != "c-header"@) by {
        assert("apple-script"@.len() != "c-header"@.len());
    }
    assert(n != "cpp-source"@) by {
        assert("apple-script"@.len() != "cpp-source"@.len());
    }
    assert(n != "cpp-header"@) by {
        assert("apple-script"@.len() != "cpp-header"@.len());
    }
    assert(n != "objc-source"@) by {
        assert("apple-script"@.len() != "objc-source"@.len());
    }
    assert(n != "objc-plus-plus-source"@) by {
        assert("apple-script"@.len() != "objc-plus-plus-source"@.len());
    }
    assert(n != "swift-source"@) by {
        assert("apple-script"@[0] != "swift-source"@[0]);
    }
    assert(n != "shell"@) by {
        assert("apple-script"@.len() != "shell"@.len());
    }
    assert(n != "makefile"@) by {
        assert("apple-script"@.len() != "makefile"@.len());
    }
    assert(n != "javascript"@) by {
        assert("apple-script"@.len() != "javascript"@.len());
    }
    assert(n != "python-script"@) by {
        assert("apple-script"@.len() != "python-script"@.len());
    }
    assert(n != "ruby-script"@) by {
        assert("apple-script"@.len() != "ruby-script"@.len());
    }
    assert(n != "perl-script"@) by {
        assert("apple-script"@.len() != "perl-script"@.len());
    }
    assert(n != "php-script"@) by {
        assert("apple-script"@.len() != "php-script"@.len());
    }
    assert(parse_spec(n) == Some(SuperType::AppleScript));
}

proof fn lemma_display_parse_assemblysource()
    ensures
        parse_spec(normalized(name_spec(SuperType::AssemblySource))) == Some(SuperType::AssemblySource),
{
    reveal_strlit("assembly-source");
    reveal_strlit("text");
    reveal_strlit("plain-text");
    reveal_strlit("csv");
    reveal_strlit("json");
    reveal_strlit("xml");
    reveal_strlit("yaml");
    reveal_strlit("html");
    reveal_strlit("markdown");
    reveal_strlit("rtf");
    reveal_strlit("image");
    reveal_strlit("raw-image");
    reveal_strlit("png");
    reveal_strlit("jpeg");
    reveal_strlit("gif");
    reveal_strlit("tiff");
    reveal_strlit("svg");
    reveal_strlit("webp");
    reveal_strlit("heic");
    reveal_strlit("heif");
    reveal_strlit("bmp");
    reveal_strlit("audio");
    reveal_strlit("mp3");
    reveal_strlit("wav");
    reveal_strlit("aiff");
    reveal_strlit("midi");
    reveal_strlit("mp4-audio");
    reveal_strlit("apple-protected-mp4-audio");
    reveal_strlit("flac");
    reveal_strlit("ogg-audio");
    reveal_strlit("ac3-audio");
    reveal_strlit("aac-audio");
    reveal_strlit("video");
    reveal_strlit("mpeg2-transport-stream");
    reveal_strlit("movie");
    reveal_strlit("quicktime-movie");
    reveal_strlit("mp4-movie");
    reveal_strlit("apple-protected-mp4-video");
    reveal_strlit("mpeg");
    reveal_strlit("mpeg2-video");
    reveal_strlit("avi");
    reveal_strlit("dv-movie");
    reveal_strlit("real-media");
    reveal_strlit("real-audio");
    reveal_strlit("webm");
    reveal_strlit("matroska");
    reveal_strlit("m3u-playlist");
    reveal_strlit("archive");
    reveal_strlit("zip");
    reveal_strlit("gzip");
    reveal_strlit("tar");
    reveal_strlit("bz2");
    reveal_strlit("apple-archive");
    reveal_strlit("sourcecode");
    reveal_strlit("c-source");
    reveal_strlit("c-header");
    reveal_strlit("cpp-source");
    reveal_strlit("cpp-header");
    reveal_strlit("objc-source");
    reveal_strlit("objc-plus-plus-source");
    reveal_strlit("swift-source");
    reveal_strlit("shell");
    reveal_strlit("makefile");
    reveal_strlit("javascript");
    reveal_strlit("python-script");
    reveal_strlit("ruby-script");
    reveal_strlit("perl-script");
    reveal_strlit("php-script");
    reveal_strlit("apple-script");
    assert(normalized(name_spec(SuperType::AssemblySource)) =~= "assembly-source"@);
    let n = normalized(name_spec(SuperType::AssemblySource));
    assert(n != "text"@) by {
        assert("assembly-source"@.len() != "text"@.len());
    }
    assert(n != "plain-text"@) by {
        assert("assembly-source"@.len() != "plain-text"@.len());
    }
    assert(n != "csv"@) by {
        assert("assembly-source"@.len() != "csv"@.len());
    }
    assert(n != "json"@) by {
        assert("assembly-source"@.len() != "json"@.len());
    }
    assert(n != "xml"@) by {
        assert("assembly-source"@.len() != "xml"@.len());
    }
    assert(n != "yaml"@) by {
        assert("assembly-source"@.len() != "yaml"@.len());
    }
    assert(n != "html"@) by {
        assert("assembly-source"@.len() != "html"@.len());
    }
    assert(n != "markdown"@) by {
        assert("assembly-source"@.len() != "markdown"@.len());
    }
    assert(n != "rtf"@) by {
        assert("assembly-source"@.len() != "rtf"@.len());
    }
    assert(n != "image"@) by {
        assert("assembly-source"@.len() != "image"@.len());
    }
    assert(n != "raw-image"@) by {
        assert("assembly-source"@.len() != "raw-image"@.len());
    }
    assert(n != "png"@) by {
        assert("assembly-source"@.len() != "png"@.len());
    }
    assert(n != "jpeg"@) by {
        assert("assembly-source"@.len() != "jpeg"@.len());
    }
    assert(n != "gif"@) by {
        assert("assembly-source"@.len() != "gif"@.len());
    }
    assert(n != "tiff"@) by {
        assert("assembly-source"@.len() != "tiff"@.len());
    }
    assert(n != "svg"@) by {
        assert("assembly-source"@.len() != "svg"@.len());
    }
    assert(n != "webp"@) by {
        assert("assembly-source"@.len() != "webp"@.len());
    }
    assert(n != "heic"@) by {
        assert("assembly-source"@.len() != "heic"@.len());
    }
    assert(n != "heif"@) by {
        assert("assembly-source"@.len() != "heif"@.len());
    }
    assert(n != "bmp"@) by {
        assert("assembly-source"@.len() != "bmp"@.len());
    }
    assert(n != "audio"@) by {
        assert("assembly-source"@.len() != "audio"@.len());
    }
    assert(n != "mp3"@) by {
        assert("assembly-source"@.len() != "mp3"@.len());
    }
    assert(n != "wav"@) by {
        assert("assembly-source"@.len() != "wav"@.len());
    }
    assert(n != "aiff"@) by {
        assert("assembly-source"@.len() != "aiff"@.len());
    }
    assert(n != "midi"@) by {
        assert("assembly-source"@.len() != "midi"@.len());
    }
    assert(n != "mp4-audio"@) by {
        assert("assembly-source"@.len() != "mp4-audio"@.len());
    }
    assert(n != "apple-protected-mp4-audio"@) by {
        assert("assembly-source"@.len() != "apple-protected-mp4-audio"@.len());
    }
    assert(n != "flac"@) by {
        assert("assembly-source"@.len() != "flac"@.len());
    }
    assert(n != "ogg-audio"@) by {
        assert("assembly-source"@.len() != "ogg-audio"@.len());
    }
    assert(n != "ac3-audio"@) by {
        assert("assembly-source"@.len() != "ac3-audio"@.len());
    }
    assert(n != "aac-audio"@) by {
        assert("assembly-source"@.len() != "aac-audio"@.len());
    }
    assert(n != "video"@) by {
        assert("assembly-source"@.len() != "video"@.len());
    }
    assert(n != "mpeg2-transport-stream"@) by {
        assert("assembly-source"@.len() != "mpeg2-transport-stream"@.len());
    }
    assert(n != "movie"@) by {
        assert("assembly-source"@.len() != "movie"@.len());
    }
    assert(n != "quicktime-movie"@) by {
        assert("assembly-source"@[0] != "quicktime-movie"@[0]);
    }
    assert(n != "mp4-movie"@) by {
        assert("assembly-source"@.len() != "mp4-movie"@.len());
    }
    assert(n != "apple-protected-mp4-video"@) by {
        assert("assembly-source"@.len() != "apple-protected-mp4-video"@.len());
    }
    assert(n != "mpeg"@) by {
        assert("assembly-source"@.len() != "mpeg"@.len());
    }
    assert(n != "mpeg2-video"@) by {
        assert("assembly-source"@.len() != "mpeg2-video"@.len());
    }
    assert(n != "avi"@) by {
        assert("assembly-source"@.len() != "avi"@.len());
    }
    assert(n != "dv-movie"@) by {
        assert("assembly-source"@.len() != "dv-movie"@.len());
    }
    assert(n != "real-media"@) by {
        assert("assembly-source"@.len() != "real-media"@.len());
    }
    assert(n != "real-audio"@) by {
        assert("assembly-source"@.len() != "real-audio"@.len());
    }
    assert(n != "webm"@) by {
        assert("assembly-source"@.len() != "webm"@.len());
    }
    assert(n != "matroska"@) by {
        assert("assembly-source"@.len() != "matroska"@.len());
    }
    assert(n != "m3u-playlist"@) by {
        assert("assembly-source"@.len() != "m3u-playlist"@.len());
    }
    assert(n != "archive"@) by {
        assert("assembly-source"@.len() != "archive"@.len());
    }
    assert(n != "zip"@) by {
        assert("assembly-source"@.len() != "zip"@.len());
    }
    assert(n != "gzip"@) by {
        assert("assembly-source"@.len() != "gzip"@.len());
    }
    assert(n != "tar"@) by {
        assert("assembly-source"@.len() != "tar"@.len());
    }
    assert(n != "bz2"@) by {
        assert("assembly-source"@.len() != "bz2"@.len());
    }
    assert(n != "apple-archive"@) by {
        assert("assembly-source"@.len() != "apple-archive"@.len());
    }
    assert(n != "sourcecode"@) by {
        assert("assembly-source"@.len() != "sourcecode"@.len());
    }
    assert(n != "c-source"@) by {
        assert("assembly-source"@.len() != "c-source"@.len());
    }
    assert(n != "c-header"@) by {
        assert("assembly-source"@.len() != "c-header"@.len());
    }
    assert(n != "cpp-source"@) by {
        assert("assembly-source"@.len() != "cpp-source"@.len());
    }
    assert(n != "cpp-header"@) by {
        assert("assembly-source"@.len() != "cpp-header"@.len());
    }
    assert(n != "objc-source"@) by {
        assert("assembly-source"@.len() != "objc-source"@.len());
    }
    assert(n != "objc-plus-plus-source"@) by {
        assert("assembly-source"@.len() != "objc-plus-plus-source"@.len());
    }
    assert(n != "swift-source"@) by {
        assert("assembly-source"@.len() != "swift-source"@.len());
    }
    assert(n != "shell"@) by {
        assert("assembly-source"@.len() != "shell"@.len());
    }
    assert(n != "makefile"@) by {
        assert("assembly-source"@.len() != "makefile"@.len());
    }
    assert(n != "javascript"@) by {
        assert("assembly-source"@.len() != "javascript"@.len());
    }
    assert(n != "python-script"@) by {
        assert("assembly-source"@.len() != "python-script"@.len());
    }
    assert(n != "ruby-script"@) by {
        assert("assembly-source"@.len() != "ruby-script"@.len());
    }
    assert(n != "perl-script"@) by {
        assert("assembly-source"@.len() != "perl-script"@.len());
    }
    assert(n != "php-script"@) by {
        assert("assembly-source"@.len() != "php-script"@.len());
    }
    assert(n != "apple-script"@) by {
        assert("assembly-source"@.len() != "apple-script"@.len());
    }
    assert(parse_spec(n) == Some(SuperType::AssemblySource));
}

proof fn lemma_display_parse_data()
    ensures
        parse_spec(normalized(name_spec(SuperType::Data))) == Some(SuperType::Data),
{
    reveal_strlit("data");
    reveal_strlit("text");
    reveal_strlit("plain-text");
    reveal_strlit("csv");
    reveal_strlit("json");
    reveal_strlit("xml");
    reveal_strlit("yaml");
    reveal_strlit("html");
    reveal_strlit("markdown");
    reveal_strlit("rtf");
    reveal_strlit("image");
    reveal_strlit("raw-image");
    reveal_strlit("png");
    reveal_strlit("jpeg");
    reveal_strlit("gif");
    reveal_strlit("tiff");
    reveal_strlit("svg");
    reveal_strlit("webp");
    reveal_strlit("heic");
    reveal_strlit("heif");
    reveal_strlit("bmp");
    reveal_strlit("audio");
    reveal_strlit("mp3");
    reveal_strlit("wav");
    reveal_strlit("aiff");
    reveal_strlit("midi");
    reveal_strlit("mp4-audio");
    reveal_strlit("apple-protected-mp4-audio");
    reveal_strlit("flac");
    reveal_strlit("ogg-audio");
    reveal_strlit("ac3-audio");
    reveal_strlit("aac-audio");
    reveal_strlit("video");
    reveal_strlit("mpeg2-transport-stream");
    reveal_strlit("movie");
    reveal_strlit("quicktime-movie");
    reveal_strlit("mp4-movie");
    reveal_strlit("apple-protected-mp4-video");
    reveal_strlit("mpeg");
    reveal_strlit("mpeg2-video");
    reveal_strlit("avi");
    reveal_strlit("dv-movie");
    reveal_strlit("real-media");
    reveal_strlit("real-audio");
    reveal_strlit("webm");
    reveal_strlit("matroska");
    reveal_strlit("m3u-playlist");
    reveal_strlit("archive");
    reveal_strlit("zip");
    reveal_strlit("gzip");
    reveal_strlit("tar");
    reveal_strlit("bz2");
    reveal_strlit("apple-archive");
    reveal_strlit("sourcecode");
    reveal_strlit("c-source");
    reveal_strlit("c-header");
    reveal_strlit("cpp-source");
    reveal_strlit("cpp-header");
    reveal_strlit("objc-source");
    reveal_strlit("objc-plus-plus-source");
    reveal_strlit("swift-source");
    reveal_strlit("shell");
    reveal_strlit("makefile");
    reveal_strlit("javascript");
    reveal_strlit("python-script");
    reveal_strlit("ruby-script");
    reveal_strlit("perl-script");
    reveal_strlit("php-script");
    reveal_strlit("apple-script");
    reveal_strlit("assembly-source");
    assert(normalized(name_spec(SuperType::Data)) =~= "data"@);
    let n = normalized(name_spec(SuperType::Data));
    assert(n != "text"@) by {
        assert("data"@[0] != "text"@[0]);
    }
    assert(n != "plain-text"@) by {
        assert("data"@.len() != "plain-text"@.len());
    }
    assert(n != "csv"@) by {
        assert("data"@.len() != "csv"@.len());
    }
    assert(n != "json"@) by {
        assert("data"@[0] != "json"@[0]);
    }
    assert(n != "xml"@) by {
        assert("data"@.len() != "xml"@.len());
    }
    assert(n != "yaml"@) by {
        assert("data"@[0] != "yaml"@[0]);
    }
    assert(n != "html"@) by {
        assert("data"@[0] != "html"@[0]);
    }
    assert(n != "markdown"@) by {
        assert("data"@.len() != "markdown"@.len());
    }
    assert(n != "rtf"@) by {
        assert("data"@.len() != "rtf"@.len());
    }
    assert(n != "image"@) by {
        assert("data"@.len() != "image"@.len());
    }
    assert(n != "raw-image"@) by {
        assert("data"@.len() != "raw-image"@.len());
    }
    assert(n != "png"@) by {
        assert("data"@.len() != "png"@.len());
    }
    assert(n != "jpeg"@) by {
        assert("data"@[0] != "jpeg"@[0]);
    }
    assert(n != "gif"@) by {
        assert("data"@.len() != "gif"@.len());
    }
    assert(n != "tiff"@) by {
        assert("data"@[0] != "tiff"@[0]);
    }
    assert(n != "svg"@) by {
        assert("data"@.len() != "svg"@.len());
    }
    assert(n != "webp"@) by {
        assert("data"@[0] != "webp"@[0]);
    }
    assert(n != "heic"@) by {
        assert("data"@[0] != "heic"@[0]);
    }
    assert(n != "heif"@) by {
        assert("data"@[0] != "heif"@[0]);
    }
    assert(n != "bmp"@) by {
        assert("data"@.len() != "bmp"@.len());
    }
    assert(n != "audio"@) by {
        assert("data"@.len() != "audio"@.len());
    }
    assert(n != "mp3"@) by {
        assert("data"@.len() != "mp3"@.len());
    }
    assert(n != "wav"@) by {
        assert("data"@.len() != "wav"@.len());
    }
    assert(n != "aiff"@) by {
        assert("data"@[0] != "aiff"@[0]);
    }
    assert(n != "midi"@) by {
        assert("data"@[0] != "midi"@[0]);
    }
    assert(n != "mp4-audio"@) by {
        assert("data"@.len() != "mp4-audio"@.len());
    }
    assert(n != "apple-protected-mp4-audio"@) by {
        assert("data"@.len() != "apple-protected-mp4-audio"@.len());
    }
    assert(n != "flac"@) by {
        assert("data"@[0] != "flac"@[0]);
    }
    assert(n != "ogg-audio"@) by {
        assert("data"@.len() != "ogg-audio"@.len());
    }
    assert(n != "ac3-audio"@) by {
        assert("data"@.len() != "ac3-audio"@.len());
    }
    assert(n != "aac-audio"@) by {
        assert("data"@.len() != "aac-audio"@.len());
    }
    assert(n != "video"@) by {
        assert("data"@.len() != "video"@.len());
    }
    assert(n != "mpeg2-transport-stream"@) by {
        assert("data"@.len() != "mpeg2-transport-stream"@.len());
    }
    assert(n != "movie"@) by {
        assert("data"@.len() != "movie"@.len());
    }
    assert(n != "quicktime-movie"@) by {
        assert("data"@.len() != "quicktime-movie"@.len());
    }
    assert(n != "mp4-movie"@) by {
        assert("data"@.len() != "mp4-movie"@.len());
    }
    assert(n != "apple-protected-mp4-video"@) by {
        assert("data"@.len() != "apple-protected-mp4-video"@.len());
    }
    assert(n != "mpeg"@) by {
        assert("data"@[0] != "mpeg"@[0]);
    }
    assert(n != "mpeg2-video"@) by {
        assert("data"@.len() != "mpeg2-video"@.len());
    }
    assert(n != "avi"@) by {
        assert("data"@.len() != "avi"@.len());
    }
    assert(n != "dv-movie"@) by {
        assert("data"@.len() != "dv-movie"@.len());
    }
    assert(n != "real-media"@) by {
        assert("data"@.len() != "real-media"@.len());
    }
    assert(n != "real-audio"@) by {
        assert("data"@.len() != "real-audio"@.len());
    }
    assert(n != "webm"@) by {
        assert("data"@[0] != "webm"@[0]);
    }
    assert(n != "matroska"@) by {
        assert("data"@.len() != "matroska"@.len());
    }
    assert(n != "m3u-playlist"@) by {
        assert("data"@.len() != "m3u-playlist"@.len());
    }
    assert(n != "archive"@) by {
        assert("data"@.len() != "archive"@.len());
    }
    assert(n != "zip"@) by {
        assert("data"@.len() != "zip"@.len());
    }
    assert(n != "gzip"@) by {
        assert("data"@[0] != "gzip"@[0]);
    }
    assert(n != "tar"@) by {
        assert("data"@.len() != "tar"@.len());
    }
    assert(n != "bz2"@) by {
        assert("data"@.len() != "bz2"@.len());
    }
    assert(n != "apple-archive"@) by {
        assert("data"@.len() != "apple-archive"@.len());
    }
    assert(n != "sourcecode"@) by {
        assert("data"@.len() != "sourcecode"@.len());
    }
    assert(n != "c-source"@) by {
        assert("data"@.len() != "c-source"@.len());
    }
    assert(n != "c-header"@) by {
        assert("data"@.len() != "c-header"@.len());
    }
    assert(n != "cpp-source"@) by {
        assert("data"@.len() != "cpp-source"@.len());
    }
    assert(n != "cpp-header"@) by {
        assert("data"@.len() != "cpp-header"@.len());
    }
    assert(n != "objc-source"@) by {
        assert("data"@.len() != "objc-source"@.len());
    }
    assert(n != "objc-plus-plus-source"@) by {
        assert("data"@.len() != "objc-plus-plus-source"@.len());
    }
    assert(n != "swift-source"@) by {
        assert("data"@.len() != "swift-source"@.len());
    }
    assert(n != "shell"@) by {
        assert("data"@.len() != "shell"@.len());
    }
    assert(n != "makefile"@) by {
        assert("data"@.len() != "makefile"@.len());
    }
    assert(n != "javascript"@) by {
        assert("data"@.len() != "javascript"@.len());
    }
    assert(n != "python-script"@) by {
        assert("data"@.len() != "python-script"@.len());
    }
    assert(n != "ruby-script"@) by {
        assert("data"@.len() != "ruby-script"@.len());
    }
    assert(n != "perl-script"@) by {
        assert("data"@.len() != "perl-script"@.len());
    }
    assert(n != "php-script"@) by {
        assert("data"@.len() != "php-script"@.len());
    }
    assert(n != "apple-script"@) by {
        assert("data"@.len() != "apple-script"@.len());
    }
    assert(n != "assembly-source"@) by {
        assert("data"@.len() != "assembly-source"@.len());
    }
    assert(parse_spec(n) == Some(SuperType::Data));
}

proof fn lemma_display_parse_directory()
    ensures
        parse_spec(normalized(name_spec(SuperType::Directory))) == Some(SuperType::Directory),
{
    reveal_strlit("directory");
    reveal_strlit("text");
    reveal_strlit("plain-text");
    reveal_strlit("csv");
    reveal_strlit("json");
    reveal_strlit("xml");
    reveal_strlit("yaml");
    reveal_strlit("html");
    reveal_strlit("markdown");
    reveal_strlit("rtf");
    reveal_strlit("image");
    reveal_strlit("raw-image");
    reveal_strlit("png");
    reveal_strlit("jpeg");
    reveal_strlit("gif");
    reveal_strlit("tiff");
    reveal_strlit("svg");
    reveal_strlit("webp");
    reveal_strlit("heic");
    reveal_strlit("heif");
    reveal_strlit("bmp");
    reveal_strlit("audio");
    reveal_strlit("mp3");
    reveal_strlit("wav");
    reveal_strlit("aiff");
    reveal_strlit("midi");
    reveal_strlit("mp4-audio");
    reveal_strlit("apple-protected-mp4-audio");
    reveal_strlit("flac");
    reveal_strlit("ogg-audio");
    reveal_strlit("ac3-audio");
    reveal_strlit("aac-audio");
    reveal_strlit("video");
    reveal_strlit("mpeg2-transport-stream");
    reveal_strlit("movie");
    reveal_strlit("quicktime-movie");
    reveal_strlit("mp4-movie");
    reveal_strlit("apple-protected-mp4-video");
    reveal_strlit("mpeg");
    reveal_strlit("mpeg2-video");
    reveal_strlit("avi");
    reveal_strlit("dv-movie");
    reveal_strlit("real-media");
    reveal_strlit("real-audio");
    reveal_strlit("webm");
    reveal_strlit("matroska");
    reveal_strlit("m3u-playlist");
    reveal_strlit("archive");
    reveal_strlit("zip");
    reveal_strlit("gzip");
    reveal_strlit("tar");
    reveal_strlit("bz2");
    reveal_strlit("apple-archive");
    reveal_strlit("sourcecode");
    reveal_strlit("c-source");
    reveal_strlit("c-header");
    reveal_strlit("cpp-source");
    reveal_strlit("cpp-header");
    reveal_strlit("objc-source");
    reveal_strlit("objc-plus-plus-source");
    reveal_strlit("swift-source");
    reveal_strlit("shell");
    reveal_strlit("makefile");
    reveal_strlit("javascript");
    reveal_strlit("python-script");
    reveal_strlit("ruby-script");
    reveal_strlit("perl-script");
    reveal_strlit("php-script");
    reveal_strlit("apple-script");
    reveal_strlit("assembly-source");
    reveal_strlit("data");
    assert(normalized(name_spec(SuperType::Directory)) =~= "directory"@);
    let n = normalized(name_spec(SuperType::Directory));
    assert(n != "text"@) by {
        assert("directory"@.len() != "text"@.len());
    }
    assert(n != "plain-text"@) by {
        assert("directory"@.len() != "plain-text"@.len());
    }
    assert(n != "csv"@) by {
        assert("directory"@.len() != "csv"@.len());
    }
    assert(n != "json"@) by {
        assert("directory"@.len() != "json"@.len());
    }
    assert(n != "xml"@) by {
        assert("directory"@.len() != "xml"@.len());
    }
    assert(n != "yaml"@) by {
        assert("directory"@.len() != "yaml"@.len());
    }
    assert(n != "html"@) by {
        assert("directory"@.len() != "html"@.len());
    }
    assert(n != "markdown"@) by {
        assert("directory"@.len() != "markdown"@.len());
    }
    assert(n != "rtf"@) by {
        assert("directory"@.len() != "rtf"@.len());
    }
    assert(n != "image"@) by {
        assert("directory"@.len() != "image"@.len());
    }
    assert(n != "raw-image"@) by {
        assert("directory"@[0] != "raw-image"@[0]);
    }
    assert(n != "png"@) by {
        assert("directory"@.len() != "png"@.len());
    }
    assert(n != "jpeg"@) by {
        assert("directory"@.len() != "jpeg"@.len());
    }
    assert(n != "gif"@) by {
        assert("directory"@.len() != "gif"@.len());
    }
    assert(n != "tiff"@) by {
        assert("directory"@.len() != "tiff"@.len());
    }
    assert(n != "svg"@) by {
        assert("directory"@.len() != "svg"@.len());
    }
    assert(n != "webp"@) by {
        assert("directory"@.len() != "webp"@.len());
    }
    assert(n != "heic"@) by {
        assert("directory"@.len() != "heic"@.len());
    }
    assert(n != "heif"@) by {
        assert("directory"@.len() != "heif"@.len());
    }
    assert(n != "bmp"@) by {
        assert("directory"@.len() != "bmp"@.len());
    }
    assert(n != "audio"@) by {
        assert("directory"@.len() != "audio"@.len());
    }
    assert(n != "mp3"@) by {
        assert("directory"@.len() != "mp3"@.len());
    }
    assert(n != "wav"@) by {
        assert("directory"@.len() != "wav"@.len());
    }
    assert(n != "aiff"@) by {
        assert("directory"@.len() != "aiff"@.len());
    }
    assert(n != "midi"@) by {
        assert("directory"@.len() != "midi"@.len());
    }
    assert(n != "mp4-audio"@) by {
        assert("directory"@[0] != "mp4-audio"@[0]);
    }
    assert(n != "apple-protected-mp4-audio"@) by {
        assert("directory"@.len() != "apple-protected-mp4-audio"@.len());
    }
    assert(n != "flac"@) by {
        assert("directory"@.len() != "flac"@.len());
    }
    assert(n != "ogg-audio"@) by {
        assert("directory"@[0] != "ogg-audio"@[0]);
    }
    assert(n != "ac3-audio"@) by {
        assert("directory"@[0] != "ac3-audio"@[0]);
    }
    assert(n != "aac-audio"@) by {
        assert("directory"@[0] != "aac-audio"@[0]);
    }
    assert(n != "video"@) by {
        assert("directory"@.len() != "video"@.len());
    }
    assert(n != "mpeg2-transport-stream"@) by {
        assert("directory"@.len() != "mpeg2-transport-stream"@.len());
    }
    assert(n != "movie"@) by {
        assert("directory"@.len() != "movie"@.len());
    }
    assert(n != "quicktime-movie"@) by {
        assert("directory"@.len() != "quicktime-movie"@.len());
    }
    assert(n != "mp4-movie"@) by {
        assert("directory"@[0] != "mp4-movie"@[0]);
    }
    assert(n != "apple-protected-mp4-video"@) by {
        assert("directory"@.len() != "apple-protected-mp4-video"@.len());
    }
    assert(n != "mpeg"@) by {
        assert("directory"@.len() != "mpeg"@.len());
    }
    assert(n != "mpeg2-video"@) by {
        assert("directory"@.len() != "mpeg2-video"@.len());
    }
    assert(n != "avi"@) by {
        assert("directory"@.len() != "avi"@.len());
    }
    assert(n != "dv-movie"@) by {
        assert("directory"@.len() != "dv-movie"@.len());
    }
    assert(n != "real-media"@) by {
        assert("directory"@.len() != "real-media"@.len());
    }
    assert(n != "real-audio"@) by {
        assert("directory"@.len() != "real-audio"@.len());
    }
    assert(n != "webm"@) by {
        assert("directory"@.len() != "webm"@.len());
    }
    assert(n != "matroska"@) by {
        assert("directory"@.len() != "matroska"@.len());
    }
    assert(n != "m3u-playlist"@) by {
        assert("directory"@.len() != "m3u-playlist"@.len());
    }
    assert(n != "archive"@) by {
        assert("directory"@.len() != "archive"@.len());
    }
    assert(n != "zip"@) by {
        assert("directory"@.len() != "zip"@.len());
    }
    assert(n != "gzip"@) by {
        assert("directory"@.len() != "gzip"@.len());
    }
    assert(n != "tar"@) by {
        assert("directory"@.len() != "tar"@.len());
    }
    assert(n != "bz2"@) by {
        assert("directory"@.len() != "bz2"@.len());
    }
    assert(n != "apple-archive"@) by {
        assert("directory"@.len() != "apple-archive"@.len());
    }
    assert(n != "sourcecode"@) by {
        assert("directory"@.len() != "sourcecode"@.len());
    }
    assert(n != "c-source"@) by {
        assert("directory"@.len() != "c-source"@.len());
    }
    assert(n != "c-header"@) by {
        assert("directory"@.len() != "c-header"@.len());
    }
    assert(n != "cpp-source"@) by {
        assert("directory"@.len() != "cpp-source"@.len());
    }
    assert(n != "cpp-header"@) by {
        assert("directory"@.len() != "cpp-header"@.len());
    }
    assert(n != "objc-source"@) by {
        assert("directory"@.len() != "objc-source"@.len());
    }
    assert(n != "objc-plus-plus-source"@) by {
        assert("directory"@.len() != "objc-plus-plus-source"@.len());
    }
    assert(n != "swift-source"@) by {
        assert("directory"@.len() != "swift-source"@.len());
    }
    assert(n != "shell"@) by {
        assert("directory"@.len() != "shell"@.len());
    }
    assert(n != "makefile"@) by {
        assert("directory"@.len() != "makefile"@.len());
    }
    assert(n != "javascript"@) by {
        assert("directory"@.len() != "javascript"@.len());
    }
    assert(n != "python-script"@) by {
        assert("directory"@.len() != "python-script"@.len());
    }
    assert(n != "ruby-script"@) by {
        assert("directory"@.len() != "ruby-script"@.len());
    }
    assert(n != "perl-script"@) by {
        assert("directory"@.len() != "perl-script"@.len());
    }
    assert(n != "php-script"@) by {
        assert("directory"@.len() != "php-script"@.len());
    }
    assert(n != "apple-script"@) by {
        assert("directory"@.len() != "apple-script"@.len());
    }
    assert(n != "assembly-source"@) by {
        assert("directory"@.len() != "assembly-source"@.len());
    }
    assert(n != "data"@) by {
        assert("directory"@.len() != "data"@.len());
    }
    assert(parse_spec(n) == Some(SuperType::Directory));
}

proof fn lemma_display_parse_folder()
    ensures
        parse_spec(normalized(name_spec(SuperType::Folder))) == Some(SuperType::Folder),
{
    reveal_strlit("folder");
    reveal_strlit("text");
    reveal_strlit("plain-text");
    reveal_strlit("csv");
    reveal_strlit("json");
    reveal_strlit("xml");
    reveal_strlit("yaml");
    reveal_strlit("html");
    reveal_strlit("markdown");
    reveal_strlit("rtf");
    reveal_strlit("image");
    reveal_strlit("raw-image");
    reveal_strlit("png");
    reveal_strlit("jpeg");
    reveal_strlit("gif");
    reveal_strlit("tiff");
    reveal_strlit("svg");
    reveal_strlit("webp");
    reveal_strlit("heic");
    reveal_strlit("heif");
    reveal_strlit("bmp");
    reveal_strlit("audio");
    reveal_strlit("mp3");
    reveal_strlit("wav");
    reveal_strlit("aiff");
    reveal_strlit("midi");
    reveal_strlit("mp4-audio");
    reveal_strlit("apple-protected-mp4-audio");
    reveal_strlit("flac");
    reveal_strlit("ogg-audio");
    reveal_strlit("ac3-audio");
    reveal_strlit("aac-audio");
    reveal_strlit("video");
    reveal_strlit("mpeg2-transport-stream");
    reveal_strlit("movie");
    reveal_strlit("quicktime-movie");
    reveal_strlit("mp4-movie");
    reveal_strlit("apple-protected-mp4-video");
    reveal_strlit("mpeg");
    reveal_strlit("mpeg2-video");
    reveal_strlit("avi");
    reveal_strlit("dv-movie");
    reveal_strlit("real-media");
    reveal_strlit("real-audio");
    reveal_strlit("webm");
    reveal_strlit("matroska");
    reveal_strlit("m3u-playlist");
    reveal_strlit("archive");
    reveal_strlit("zip");
    reveal_strlit("gzip");
    reveal_strlit("tar");
    reveal_strlit("bz2");
    reveal_strlit("apple-archive");
    reveal_strlit("sourcecode");
    reveal_strlit("c-source");
    reveal_strlit("c-header");
    reveal_strlit("cpp-source");
    reveal_strlit("cpp-header");
    reveal_strlit("objc-source");
    reveal_strlit("objc-plus-plus-source");
    reveal_strlit("swift-source");
    reveal_strlit("shell");
    reveal_strlit("makefile");
    reveal_strlit("javascript");
    reveal_strlit("python-script");
    reveal_strlit("ruby-script");
    reveal_strlit("perl-script");
    reveal_strlit("php-script");
    reveal_strlit("apple-script");
    reveal_strlit("assembly-source");
    reveal_strlit("data");
    reveal_strlit("directory");
    assert(normalized(name_spec(SuperType::Folder)) =~= "folder"@);
    let n = normalized(name_spec(SuperType::Folder));
    assert(n != "text"@) by {
        assert("folder"@.len() != "text"@.len());
    }
    assert(n != "plain-text"@) by {
        assert("folder"@.len() != "plain-text"@.len());
    }
    assert(n != "csv"@) by {
        assert("folder"@.len() != "csv"@.len());
    }
    assert(n != "json"@) by {
        assert("folder"@.len() != "json"@.len());
    }
    assert(n != "xml"@) by {
        assert("folder"@.len() != "xml"@.len());
    }
    assert(n != "yaml"@) by {
        assert("folder"@.len() != "yaml"@.len());
    }
    assert(n != "html"@) by {
        assert("folder"@.len() != "html"@.len());
    }
    assert(n != "markdown"@) by {
        assert("folder"@.len() != "markdown"@.len());
    }
    assert(n != "rtf"@) by {
        assert("folder"@.len() != "rtf"@.len());
    }
    assert(n != "image"@) by {
        assert("folder"@.len() != "image"@.len());
    }
    assert(n != "raw-image"@) by {
        assert("folder"@.len() != "raw-image"@.len());
    }
    assert(n != "png"@) by {
        assert("folder"@.len() != "png"@.len());
    }
    assert(n != "jpeg"@) by {
        assert("folder"@.len() != "jpeg"@.len());
    }
    assert(n != "gif"@) by {
        assert("folder"@.len() != "gif"@.len());
    }
    assert(n != "tiff"@) by {
        assert("folder"@.len() != "tiff"@.len());
    }
    assert(n != "svg"@) by {
        assert("folder"@.len() != "svg"@.len());
    }
    assert(n != "webp"@) by {
        assert("folder"@.len() != "webp"@.len());
    }
    assert(n != "heic"@) by {
        assert("folder"@.len() != "heic"@.len());
    }
    assert(n != "heif"@) by {
        assert("folder"@.len() != "heif"@.len());
    }
    assert(n != "bmp"@) by {
        assert("folder"@.len() != "bmp"@.len());
    }
    assert(n != "audio"@) by {
        assert("folder"@.len() != "audio"@.len());
    }
    assert(n != "mp3"@) by {
        assert("folder"@.len() != "mp3"@.len());
    }
    assert(n != "wav"@) by {
        assert("folder"@.len() != "wav"@.len());
    }
    assert(n != "aiff"@) by {
        assert("folder"@.len() != "aiff"@.len());
    }
    assert(n != "midi"@) by {
        assert("folder"@.len() != "midi"@.len());
    }
    assert(n != "mp4-audio"@) by {
        assert("folder"@.len() != "mp4-audio"@.len());
    }
    assert(n != "apple-protected-mp4-audio"@) by {
        assert("folder"@.len() != "apple-protected-mp4-audio"@.len());
    }
    assert(n != "flac"@) by {
        assert("folder"@.len() != "flac"@.len());
    }
    assert(n != "ogg-audio"@) by {
        assert("folder"@.len() != "ogg-audio"@.len());
    }
    assert(n != "ac3-audio"@) by {
        assert("folder"@.len() != "ac3-audio"@.len());
    }
    assert(n != "aac-audio"@) by {
        assert("folder"@.len() != "aac-audio"@.len());
    }
    assert(n != "video"@) by {
        assert("folder"@.len() != "video"@.len());
    }
    assert(n != "mpeg2-transport-stream"@) by {
        assert("folder"@.len() != "mpeg2-transport-stream"@.len());
    }
    assert(n != "movie"@) by {
        assert("folder"@.len() != "movie"@.len());
    }
    assert(n != "quicktime-movie"@) by {
        assert("folder"@.len() != "quicktime-movie"@.len());
    }
    assert(n != "mp4-movie"@) by {
        assert("folder"@.len() != "mp4-movie"@.len());
    }
    assert(n != "apple-protected-mp4-video"@) by {
        assert("folder"@.len() != "apple-protected-mp4-video"@.len());
    }
    assert(n != "mpeg"@) by {
        assert("folder"@.len() != "mpeg"@.len());
    }
    assert(n != "mpeg2-video"@) by {
        assert("folder"@.len() != "mpeg2-video"@.len());
    }
    assert(n != "avi"@) by {
        assert("folder"@.len() != "avi"@.len());
    }
    assert(n != "dv-movie"@) by {
        assert("folder"@.len() != "dv-movie"@.len());
    }
    assert(n != "real-media"@) by {
        assert("folder"@.len() != "real-media"@.len());
    }
    assert(n != "real-audio"@) by {
        assert("folder"@.len() != "real-audio"@.len());
    }
    assert(n != "webm"@) by {
        assert("folder"@.len() != "webm"@.len());
    }
    assert(n != "matroska"@) by {
        assert("folder"@.len() != "matroska"@.len());
    }
    assert(n != "m3u-playlist"@) by {
        assert("folder"@.len() != "m3u-playlist"@.len());
    }
    assert(n != "archive"@) by {
        assert("folder"@.len() != "archive"@.len());
    }
    assert(n != "zip"@) by {
        assert("folder"@.len() != "zip"@.len());
    }
    assert(n != "gzip"@) by {
        assert("folder"@.len() != "gzip"@.len());
    }
    assert(n != "tar"@) by {
        assert("folder"@.len() != "tar"@.len());
    }
    assert(n != "bz2"@) by {
        assert("folder"@.len() != "bz2"@.len());
    }
    assert(n != "apple-archive"@) by {
        assert("folder"@.len() != "apple-archive"@.len());
    }
    assert(n != "sourcecode"@) by {
        assert("folder"@.len() != "sourcecode"@.len());
    }
    assert(n != "c-source"@) by {
        assert("folder"@.len() != "c-source"@.len());
    }
    assert(n != "c-header"@) by {
        assert("folder"@.len() != "c-header"@.len());
    }
    assert(n != "cpp-source"@) by {
        assert("folder"@.len() != "cpp-source"@.len());
    }
    assert(n != "cpp-header"@) by {
        assert("folder"@.len() != "cpp-header"@.len());
    }
    assert(n != "objc-source"@) by {
        assert("folder"@.len() != "objc-source"@.len());
    }
    assert(n != "objc-plus-plus-source"@) by {
        assert("folder"@.len() != "objc-plus-plus-source"@.len());
    }
    assert(n != "swift-source"@) by {
        assert("folder"@.len() != "swift-source"@.len());
    }
    assert(n != "shell"@) by {
        assert("folder"@.len() != "shell"@.len());
    }
    assert(n != "makefile"@) by {
        assert("folder"@.len() != "makefile"@.len());
    }
    assert(n != "javascript"@) by {
        assert("folder"@.len() != "javascript"@.len());
    }
    assert(n != "python-script"@) by {
        assert("folder"@.len() != "python-script"@.len());
    }
    assert(n != "ruby-script"@) by {
        assert("folder"@.len() != "ruby-script"@.len());
    }
    assert(n != "perl-script"@) by {
        assert("folder"@.len() != "perl-script"@.len());
    }
    assert(n != "php-script"@) by {
        assert("folder"@.len() != "php-script"@.len());
    }
    assert(n != "apple-script"@) by {
        assert("folder"@.len() != "apple-script"@.len());
    }
    assert(n != "assembly-source"@) by {
        assert("folder"@.len() != "assembly-source"@.len());
    }
    assert(n != "data"@) by {
        assert("folder"@.len() != "data"@.len());
    }
    assert(n != "directory"@) by {
        assert("folder"@.len() != "directory"@.len());
    }
    assert(parse_spec(n) == Some(SuperType::Folder));
}

proof fn lemma_display_parse_symlink()
    ensures
        parse_spec(normalized(name_spec(SuperType::Symlink))) == Some(SuperType::Symlink),
{
    reveal_strlit("symlink");
    reveal_strlit("text");
    reveal_strlit("plain-text");
    reveal_strlit("csv");
    reveal_strlit("json");
    reveal_strlit("xml");
    reveal_strlit("yaml");
    reveal_strlit("html");
    reveal_strlit("markdown");
    reveal_strlit("rtf");
    reveal_strlit("image");
    reveal_strlit("raw-image");
    reveal_strlit("png");
    reveal_strlit("jpeg");
    reveal_strlit("gif");
    reveal_strlit("tiff");
    reveal_strlit("svg");
    reveal_strlit("webp");
    reveal_strlit("heic");
    reveal_strlit("heif");
    reveal_strlit("bmp");
    reveal_strlit("audio");
    reveal_strlit("mp3");
    reveal_strlit("wav");
    reveal_strlit("aiff");
    reveal_strlit("midi");
    reveal_strlit("mp4-audio");
    reveal_strlit("apple-protected-mp4-audio");
    reveal_strlit("flac");
    reveal_strlit("ogg-audio");
    reveal_strlit("ac3-audio");
    reveal_strlit("aac-audio");
    reveal_strlit("video");
    reveal_strlit("mpeg2-transport-stream");
    reveal_strlit("movie");
    reveal_strlit("quicktime-movie");
    reveal_strlit("mp4-movie");
    reveal_strlit("apple-protected-mp4-video");
    reveal_strlit("mpeg");
    reveal_strlit("mpeg2-video");
    reveal_strlit("avi");
    reveal_strlit("dv-movie");
    reveal_strlit("real-media");
    reveal_strlit("real-audio");
    reveal_strlit("webm");
    reveal_strlit("matroska");
    reveal_strlit("m3u-playlist");
    reveal_strlit("archive");
    reveal_strlit("zip");
    reveal_strlit("gzip");
    reveal_strlit("tar");
    reveal_strlit("bz2");
    reveal_strlit("apple-archive");
    reveal_strlit("sourcecode");
    reveal_strlit("c-source");
    reveal_strlit("c-header");
    reveal_strlit("cpp-source");
    reveal_strlit("cpp-header");
    reveal_strlit("objc-source");
    reveal_strlit("objc-plus-plus-source");
    reveal_strlit("swift-source");
    reveal_strlit("shell");
    reveal_strlit("makefile");
    reveal_strlit("javascript");
    reveal_strlit("python-script");
    reveal_strlit("ruby-script");
    reveal_strlit("perl-script");
    reveal_strlit("php-script");
    reveal_strlit("apple-script");
    reveal_strlit("assembly-source");
    reveal_strlit("data");
    reveal_strlit("directory");
    reveal_strlit("folder");
    assert(normalized(name_spec(SuperType::Symlink)) =~= "symlink"@);
    let n = normalized(name_spec(SuperType::Symlink));
    assert(n != "text"@) by {
        assert("symlink"@.len() != "text"@.len());
    }
    assert(n != "plain-text"@) by {
        assert("symlink"@.len() != "plain-text"@.len());
    }
    assert(n != "csv"@) by {
        assert("symlink"@.len() != "csv"@.len());
    }
    assert(n != "json"@) by {
        assert("symlink"@.len() != "json"@.len());
    }
    assert(n != "xml"@) by {
        assert("symlink"@.len() != "xml"@.len());
    }
    assert(n != "yaml"@) by {
        assert("symlink"@.len() != "yaml"@.len());
    }
    assert(n != "html"@) by {
        assert("symlink"@.len() != "html"@.len());
    }
    assert(n != "markdown"@) by {
        assert("symlink"@.len() != "markdown"@.len());
    }
    assert(n != "rtf"@) by {
        assert("symlink"@.len() != "rtf"@.len());
    }
    assert(n != "image"@) by {
        assert("symlink"@.len() != "image"@.len());
    }
    assert(n != "raw-image"@) by {
        assert("symlink"@.len() != "raw-image"@.len());
    }
    assert(n != "png"@) by {
        assert("symlink"@.len() != "png"@.len());
    }
    assert(n != "jpeg"@) by {
        assert("symlink"@.len() != "jpeg"@.len());
    }
    assert(n != "gif"@) by {
        assert("symlink"@.len() != "gif"@.len());
    }
    assert(n != "tiff"@) by {
        assert("symlink"@.len() != "tiff"@.len());
    }
    assert(n != "svg"@) by {
        assert("symlink"@.len() != "svg"@.len());
    }
    assert(n != "webp"@) by {
        assert("symlink"@.len() != "webp"@.len());
    }
    assert(n != "heic"@) by {
        assert("symlink"@.len() != "heic"@.len());
    }
    assert(n != "heif"@) by {
        assert("symlink"@.len() != "heif"@.len());
    }
    assert(n != "bmp"@) by {
        assert("symlink"@.len() != "bmp"@.len());
    }
    assert(n != "audio"@) by {
        assert("symlink"@.len() != "audio"@.len());
    }
    assert(n != "mp3"@) by {
        assert("symlink"@.len() != "mp3"@.len());
    }
    assert(n != "wav"@) by {
        assert("symlink"@.len() != "wav"@.len());
    }
    assert(n != "aiff"@) by {
        assert("symlink"@.len() != "aiff"@.len());
    }
    assert(n != "midi"@) by {
        assert("symlink"@.len() != "midi"@.len());
    }
    assert(n != "mp4-audio"@) by {
        assert("symlink"@.len() != "mp4-audio"@.len());
    }
    assert(n != "apple-protected-mp4-audio"@) by {
        assert("symlink"@.len() != "apple-protected-mp4-audio"@.len());
    }
    assert(n != "flac"@) by {
        assert("symlink"@.len() != "flac"@.len());
    }
    assert(n != "ogg-audio"@) by {
        assert("symlink"@.len() != "ogg-audio"@.len());
    }
    assert(n != "ac3-audio"@) by {
        assert("symlink"@.len() != "ac3-audio"@.len());
    }
    assert(n != "aac-audio"@) by {
        assert("symlink"@.len() != "aac-audio"@.len());
    }
    assert(n != "video"@) by {
        assert("symlink"@.len() != "video"@.len());
    }
    assert(n != "mpeg2-transport-stream"@) by {
        assert("symlink"@.len() != "mpeg2-transport-stream"@.len());
    }
    assert(n != "movie"@) by {
        assert("symlink"@.len() != "movie"@.len());
    }
    assert(n != "quicktime-movie"@) by {
        assert("symlink"@.len() != "quicktime-movie"@.len());
    }
    assert(n != "mp4-movie"@) by {
        assert("symlink"@.len() != "mp4-movie"@.len());
    }
    assert(n != "apple-protected-mp4-video"@) by {
        assert("symlink"@.len() != "apple-protected-mp4-video"@.len());
    }
    assert(n != "mpeg"@) by {
        assert("symlink"@.len() != "mpeg"@.len());
    }
    assert(n != "mpeg2-video"@) by {
        assert("symlink"@.len() != "mpeg2-video"@.len());
    }
    assert(n != "avi"@) by {
        assert("symlink"@.len() != "avi"@.len());
    }
    assert(n != "dv-movie"@) by {
        assert("symlink"@.len() != "dv-movie"@.len());
    }
    assert(n != "real-media"@) by {
        assert("symlink"@.len() != "real-media"@.len());
    }
    assert(n != "real-audio"@) by {
        assert("symlink"@.len() != "real-audio"@.len());
    }
    assert(n != "webm"@) by {
        assert("symlink"@.len() != "webm"@.len());
    }
    assert(n != "matroska"@) by {
        assert("symlink"@.len() != "matroska"@.len());
    }
    assert(n != "m3u-playlist"@) by {
        assert("symlink"@.len() != "m3u-playlist"@.len());
    }
    assert(n != "archive"@) by {
        assert("symlink"@[0] != "archive"@[0]);
    }
    assert(n != "zip"@) by {
        assert("symlink"@.len() != "zip"@.len());
    }
    assert(n != "gzip"@) by {
        assert("symlink"@.len() != "gzip"@.len());
    }
    assert(n != "tar"@) by {
        assert("symlink"@.len() != "tar"@.len());
    }
    assert(n != "bz2"@) by {
        assert("symlink"@.len() != "bz2"@.len());
    }
    assert(n != "apple-archive"@) by {
        assert("symlink"@.len() != "apple-archive"@.len());
    }
    assert(n != "sourcecode"@) by {
        assert("symlink"@.len() != "sourcecode"@.len());
    }
    assert(n != "c-source"@) by {
        assert("symlink"@.len() != "c-source"@.len());
    }
    assert(n != "c-header"@) by {
        assert("symlink"@.len() != "c-header"@.len());
    }
    assert(n != "cpp-source"@) by {
        assert("symlink"@.len() != "cpp-source"@.len());
    }
    assert(n != "cpp-header"@) by {
        assert("symlink"@.len() != "cpp-header"@.len());
    }
    assert(n != "objc-source"@) by {
        assert("symlink"@.len() != "objc-source"@.len());
    }
    assert(n != "objc-plus-plus-source"@) by {
        assert("symlink"@.len() != "objc-plus-plus-source"@.len());
    }
    assert(n != "swift-source"@) by {
        assert("symlink"@.len() != "swift-source"@.len());
    }
    assert(n != "shell"@) by {
        assert("symlink"@.len() != "shell"@.len());
    }
    assert(n != "makefile"@) by {
        assert("symlink"@.len() != "makefile"@.len());
    }
    assert(n != "javascript"@) by {
        assert("symlink"@.len() != "javascript"@.len());
    }
    assert(n != "python-script"@) by {
        assert("symlink"@.len() != "python-script"@.len());
    }
    assert(n != "ruby-script"@) by {
        assert("symlink"@.len() != "ruby-script"@.len());
    }
    assert(n != "perl-script"@) by {
        assert("symlink"@.len() != "perl-script"@.len());
    }
    assert(n != "php-script"@) by {
        assert("symlink"@.len() != "php-script"@.len());
    }
    assert(n != "apple-script"@) by {
        assert("symlink"@.len() != "apple-script"@.len());
    }
    assert(n != "assembly-source"@) by {
        assert("symlink"@.len() != "assembly-source"@.len());
    }
    assert(n != "data"@) by {
        assert("symlink"@.len() != "data"@.len());
    }
    assert(n != "directory"@) by {
        assert("symlink"@.len() != "directory"@.len());
    }
    assert(n != "folder"@) by {
        assert("symlink"@.len() != "folder"@.len());
    }
    assert(parse_spec(n) == Some(SuperType::Symlink));
}

proof fn lemma_display_parse_executable()
    ensures
        parse_spec(normalized(name_spec(SuperType::Executable))) == Some(SuperType::Executable),
{
    reveal_strlit("executable");
    reveal_strlit("text");
    reveal_strlit("plain-text");
    reveal_strlit("csv");
    reveal_strlit("json");
    reveal_strlit("xml");
    reveal_strlit("yaml");
    reveal_strlit("html");
    reveal_strlit("markdown");
    reveal_strlit("rtf");
    reveal_strlit("image");
    reveal_strlit("raw-image");
    reveal_strlit("png");
    reveal_strlit("jpeg");
    reveal_strlit("gif");
    reveal_strlit("tiff");
    reveal_strlit("svg");
    reveal_strlit("webp");
    reveal_strlit("heic");
    reveal_strlit("heif");
    reveal_strlit("bmp");
    reveal_strlit("audio");
    reveal_strlit("mp3");
    reveal_strlit("wav");
    reveal_strlit("aiff");
    reveal_strlit("midi");
    reveal_strlit("mp4-audio");
    reveal_strlit("apple-protected-mp4-audio");
    reveal_strlit("flac");
    reveal_strlit("ogg-audio");
    reveal_strlit("ac3-audio");
    reveal_strlit("aac-audio");
    reveal_strlit("video");
    reveal_strlit("mpeg2-transport-stream");
    reveal_strlit("movie");
    reveal_strlit("quicktime-movie");
    reveal_strlit("mp4-movie");
    reveal_strlit("apple-protected-mp4-video");
    reveal_strlit("mpeg");
    reveal_strlit("mpeg2-video");
    reveal_strlit("avi");
    reveal_strlit("dv-movie");
    reveal_strlit("real-media");
    reveal_strlit("real-audio");
    reveal_strlit("webm");
    reveal_strlit("matroska");
    reveal_strlit("m3u-playlist");
    reveal_strlit("archive");
    reveal_strlit("zip");
    reveal_strlit("gzip");
    reveal_strlit("tar");
    reveal_strlit("bz2");
    reveal_strlit("apple-archive");
    reveal_strlit("sourcecode");
    reveal_strlit("c-source");
    reveal_strlit("c-header");
    reveal_strlit("cpp-source");
    reveal_strlit("cpp-header");
    reveal_strlit("objc-source");
    reveal_strlit("objc-plus-plus-source");
    reveal_strlit("swift-source");
    reveal_strlit("shell");
    reveal_strlit("makefile");
    reveal_strlit("javascript");
    reveal_strlit("python-script");
    reveal_strlit("ruby-script");
    reveal_strlit("perl-script");
    reveal_strlit("php-script");
    reveal_strlit("apple-script");
    reveal_strlit("assembly-source");
    reveal_strlit("data");
    reveal_strlit("directory");
    reveal_strlit("folder");
    reveal_strlit("symlink");
    assert(normalized(name_spec(SuperType::Executable)) =~= "executable"@);
    let n = normalized(name_spec(SuperType::Executable));
    assert(n != "text"@) by {
        assert("executable"@.len() != "text"@.len());
    }
    assert(n != "plain-text"@) by {
        assert("executable"@[0] != "plain-text"@[0]);
    }
    assert(n != "csv"@) by {
        assert("executable"@.len() != "csv"@.len());
    }
    assert(n != "json"@) by {
        assert("executable"@.len() != "json"@.len());
    }
    assert(n != "xml"@) by {
        assert("executable"@.len() != "xml"@.len());
    }
    assert(n != "yaml"@) by {
        assert("executable"@.len() != "yaml"@.len());
    }
    assert(n != "html"@) by {
        assert("executable"@.len() != "html"@.len());
    }
    assert(n != "markdown"@) by {
        assert("executable"@.len() != "markdown"@.len());
    }
    assert(n != "rtf"@) by {
        assert("executable"@.len() != "rtf"@.len());
    }
    assert(n != "image"@) by {
        assert("executable"@.len() != "image"@.len());
    }
    assert(n != "raw-image"@) by {
        assert("executable"@.len() != "raw-image"@.len());
    }
    assert(n != "png"@) by {
        assert("executable"@.len() != "png"@.len());
    }
    assert(n != "jpeg"@) by {
        assert("executable"@.len() != "jpeg"@.len());
    }
    assert(n != "gif"@) by {
        assert("executable"@.len() != "gif"@.len());
    }
    assert(n != "tiff"@) by {
        assert("executable"@.len() != "tiff"@.len());
    }
    assert(n != "svg"@) by {
        assert("executable"@.len() != "svg"@.len());
    }
    assert(n != "webp"@) by {
        assert("executable"@.len() != "webp"@.len());
    }
    assert(n != "heic"@) by {
        assert("executable"@.len() != "heic"@.len());
    }
    assert(n != "heif"@) by {
        assert("executable"@.len() != "heif"@.len());
    }
    assert(n != "bmp"@) by {
        assert("executable"@.len() != "bmp"@.len());
    }
    assert(n != "audio"@) by {
        assert("executable"@.len() != "audio"@.len());
    }
    assert(n != "mp3"@) by {
        assert("executable"@.len() != "mp3"@.len());
    }
    assert(n != "wav"@) by {
        assert("executable"@.len() != "wav"@.len());
    }
    assert(n != "aiff"@) by {
        assert("executable"@.len() != "aiff"@.len());
    }
    assert(n != "midi"@) by {
        assert("executable"@.len() != "midi"@.len());
    }
    assert(n != "mp4-audio"@) by {
        assert("executable"@.len() != "mp4-audio"@.len());
    }
    assert(n != "apple-protected-mp4-audio"@) by {
        assert("executable"@.len() != "apple-protected-mp4-audio"@.len());
    }
    assert(n != "flac"@) by {
        assert("executable"@.len() != "flac"@.len());
    }
    assert(n != "ogg-audio"@) by {
        assert("executable"@.len() != "ogg-audio"@.len());
    }
    assert(n != "ac3-audio"@) by {
        assert("executable"@.len() != "ac3-audio"@.len());
    }
    assert(n != "aac-audio"@) by {
        assert("executable"@.len() != "aac-audio"@.len());
    }
    assert(n != "video"@) by {
        assert("executable"@.len() != "video"@.len());
    }
    assert(n != "mpeg2-transport-stream"@) by {
        assert("executable"@.len() != "mpeg2-transport-stream"@.len());
    }
    assert(n != "movie"@) by {
        assert("executable"@.len() != "movie"@.len());
    }
    assert(n != "quicktime-movie"@) by {
        assert("executable"@.len() != "quicktime-movie"@.len());
    }
    assert(n != "mp4-movie"@) by {
        assert("executable"@.len() != "mp4-movie"@.len());
    }
    assert(n != "apple-protected-mp4-video"@) by {
        assert("executable"@.len() != "apple-protected-mp4-video"@.len());
    }
    assert(n != "mpeg"@) by {
        assert("executable"@.len() != "mpeg"@.len());
    }
    assert(n != "mpeg2-video"@) by {
        assert("executable"@.len() != "mpeg2-video"@.len());
    }
    assert(n != "avi"@) by {
        assert("executable"@.len() != "avi"@.len());
    }
    assert(n != "dv-movie"@) by {
        assert("executable"@.len() != "dv-movie"@.len());
    }
    assert(n != "real-media"@) by {
        assert("executable"@[0] != "real-media"@[0]);
    }
    assert(n != "real-audio"@) by {
        assert("executable"@[0] != "real-audio"@[0]);
    }
    assert(n != "webm"@) by {
        assert("executable"@.len() != "webm"@.len());
    }
    assert(n != "matroska"@) by {
        assert("executable"@.len() != "matroska"@.len());
    }
    assert(n != "m3u-playlist"@) by {
        assert("executable"@.len() != "m3u-playlist"@.len());
    }
    assert(n != "archive"@) by {
        assert("executable"@.len() != "archive"@.len());
    }
    assert(n != "zip"@) by {
        assert("executable"@.len() != "zip"@.len());
    }
    assert(n != "gzip"@) by {
        assert("executable"@.len() != "gzip"@.len());
    }
    assert(n != "tar"@) by {
        assert("executable"@.len() != "tar"@.len());
    }
    assert(n != "bz2"@) by {
        assert("executable"@.len() != "bz2"@.len());
    }
    assert(n != "apple-archive"@) by {
        assert("executable"@.len() != "apple-archive"@.len());
    }
    assert(n != "sourcecode"@) by {
        assert("executable"@[0] != "sourcecode"@[0]);
    }
    assert(n != "c-source"@) by {
        assert("executable"@.len() != "c-source"@.len());
    }
    assert(n != "c-header"@) by {
        assert("executable"@.len() != "c-header"@.len());
    }
    assert(n != "cpp-source"@) by {
        assert("executable"@[0] != "cpp-source"@[0]);
    }
    assert(n != "cpp-header"@) by {
        assert("executable"@[0] != "cpp-header"@[0]);
    }
    assert(n != "objc-source"@) by {
        assert("executable"@.len() != "objc-source"@.len());
    }
    assert(n != "objc-plus-plus-source"@) by {
        assert("executable"@.len() != "objc-plus-plus-source"@.len());
    }
    assert(n != "swift-source"@) by {
        assert("executable"@.len() != "swift-source"@.len());
    }
    assert(n != "shell"@) by {
        assert("executable"@.len() != "shell"@.len());
    }
    assert(n != "makefile"@) by {
        assert("executable"@.len() != "makefile"@.len());
    }
    assert(n != "javascript"@) by {
        assert("executable"@[0] != "javascript"@[0]);
    }
    assert(n != "python-script"@) by {
        assert("executable"@.len() != "python-script"@.len());
    }
    assert(n != "ruby-script"@) by {
        assert("executable"@.len() != "ruby-script"@.len());
    }
    assert(n != "perl-script"@) by {
        assert("executable"@.len() != "perl-script"@.len());
    }
    assert(n != "php-script"@) by {
        assert("executable"@[0] != "php-script"@[0]);
    }
    assert(n != "apple-script"@) by {
        assert("executable"@.len() != "apple-script"@.len());
    }
    assert(n != "assembly-source"@) by {
        assert("executable"@.len() != "assembly-source"@.len());
    }
    assert(n != "data"@) by {
        assert("executable"@.len() != "data"@.len());
    }
    assert(n != "directory"@) by {
        assert("executable"@.len() != "directory"@.len());
    }
    assert(n != "folder"@) by {
        assert("executable"@.len() != "folder"@.len());
    }
    assert(n != "symlink"@) by {
        assert("executable"@.len() != "symlink"@.len());
    }
    assert(parse_spec(n) == Some(SuperType::Executable));
}

proof fn lemma_display_parse_unixexecutable()
    ensures
        parse_spec(normalized(name_spec(SuperType::UnixExecutable))) == Some(SuperType::UnixExecutable),
{
    reveal_strlit("unix-executable");
    reveal_strlit("text");
    reveal_strlit("plain-text");
    reveal_strlit("csv");
    reveal_strlit("json");
    reveal_strlit("xml");
    reveal_strlit("yaml");
    reveal_strlit("html");
    reveal_strlit("markdown");
    reveal_strlit("rtf");
    reveal_strlit("image");
    reveal_strlit("raw-image");
    reveal_strlit("png");
    reveal_strlit("jpeg");
    reveal_strlit("gif");
    reveal_strlit("tiff");
    reveal_strlit("svg");
    reveal_strlit("webp");
    reveal_strlit("heic");
    reveal_strlit("heif");
    reveal_strlit("bmp");
    reveal_strlit("audio");
    reveal_strlit("mp3");
    reveal_strlit("wav");
    reveal_strlit("aiff");
    reveal_strlit("midi");
    reveal_strlit("mp4-audio");
    reveal_strlit("apple-protected-mp4-audio");
    reveal_strlit("flac");
    reveal_strlit("ogg-audio");
    reveal_strlit("ac3-audio");
    reveal_strlit("aac-audio");
    reveal_strlit("video");
    reveal_strlit("mpeg2-transport-stream");
    reveal_strlit("movie");
    reveal_strlit("quicktime-movie");
    reveal_strlit("mp4-movie");
    reveal_strlit("apple-protected-mp4-video");
    reveal_strlit("mpeg");
    reveal_strlit("mpeg2-video");
    reveal_strlit("avi");
    reveal_strlit("dv-movie");
    reveal_strlit("real-media");
    reveal_strlit("real-audio");
    reveal_strlit("webm");
    reveal_strlit("matroska");
    reveal_strlit("m3u-playlist");
    reveal_strlit("archive");
    reveal_strlit("zip");
    reveal_strlit("gzip");
    reveal_strlit("tar");
    reveal_strlit("bz2");
    reveal_strlit("apple-archive");
    reveal_strlit("sourcecode");
    reveal_strlit("c-source");
    reveal_strlit("c-header");
    reveal_strlit("cpp-source");
    reveal_strlit("cpp-header");
    reveal_strlit("objc-source");
    reveal_strlit("objc-plus-plus-source");
    reveal_strlit("swift-source");
    reveal_strlit("shell");
    reveal_strlit("makefile");
    reveal_strlit("javascript");
    reveal_strlit("python-script");
    reveal_strlit("ruby-script");
    reveal_strlit("perl-script");
    reveal_strlit("php-script");
    reveal_strlit("apple-script");
    reveal_strlit("assembly-source");
    reveal_strlit("data");
    reveal_strlit("directory");
    reveal_strlit("folder");
    reveal_strlit("symlink");
    reveal_strlit("executable");
    assert(normalized(name_spec(SuperType::UnixExecutable)) =~= "unix-executable"@);
    let n = normalized(name_spec(SuperType::UnixExecutable));
    assert(n != "text"@) by {
        assert("unix-executable"@.len() != "text"@.len());
    }
    assert(n != "plain-text"@) by {
        assert("unix-executable"@.len() != "plain-text"@.len());
    }
    assert(n != "csv"@) by {
        assert("unix-executable"@.len() != "csv"@.len());
    }
    assert(n != "json"@) by {
        assert("unix-executable"@.len() != "json"@.len());
    }
    assert(n != "xml"@) by {
        assert("unix-executable"@.len() != "xml"@.len());
    }
    assert(n != "yaml"@) by {
        assert("unix-executable"@.len() != "yaml"@.len());
    }
    assert(n != "html"@) by {
        assert("unix-executable"@.len() != "html"@.len());
    }
    assert(n != "markdown"@) by {
        assert("unix-executable"@.len() != "markdown"@.len());
    }
    assert(n != "rtf"@) by {
        assert("unix-executable"@.len() != "rtf"@.len());
    }
    assert(n != "image"@) by {
        assert("unix-executable"@.len() != "image"@.len());
    }
    assert(n != "raw-image"@) by {
        assert("unix-executable"@.len() != "raw-image"@.len());
    }
    assert(n != "png"@) by {
        assert("unix-executable"@.len() != "png"@.len());
    }
    assert(n != "jpeg"@) by {
        assert("unix-executable"@.len() != "jpeg"@.len());
    }
    assert(n != "gif"@) by {
        assert("unix-executable"@.len() != "gif"@.len());
    }
    assert(n != "tiff"@) by {
        assert("unix-executable"@.len() != "tiff"@.len());
    }
    assert(n != "svg"@) by {
        assert("unix-executable"@.len() != "svg"@.len());
    }
    assert(n != "webp"@) by {
        assert("unix-executable"@.len() != "webp"@.len());
    }
    assert(n != "heic"@) by {
        assert("unix-executable"@.len() != "heic"@.len());
    }
    assert(n != "heif"@) by {
        assert("unix-executable"@.len() != "heif"@.len());
    }
    assert(n != "bmp"@) by {
        assert("unix-executable"@.len() != "bmp"@.len());
    }
    assert(n != "audio"@) by {
        assert("unix-executable"@.len() != "audio"@.len());
    }
    assert(n != "mp3"@) by {
        assert("unix-executable"@.len() != "mp3"@.len());
    }
    assert(n != "wav"@) by {
        assert("unix-executable"@.len() != "wav"@.len());
    }
    assert(n != "aiff"@) by {
        assert("unix-executable"@.len() != "aiff"@.len());
    }
    assert(n != "midi"@) by {
        assert("unix-executable"@.len() != "midi"@.len());
    }
    assert(n != "mp4-audio"@) by {
        assert("unix-executable"@.len() != "mp4-audio"@.len());
    }
    assert(n != "apple-protected-mp4-audio"@) by {
        assert("unix-executable"@.len() != "apple-protected-mp4-audio"@.len());
    }
    assert(n != "flac"@) by {
        assert("unix-executable"@.len() != "flac"@.len());
    }
    assert(n != "ogg-audio"@) by {
        assert("unix-executable"@.len() != "ogg-audio"@.len());
    }
    assert(n != "ac3-audio"@) by {
        assert("unix-executable"@.len() != "ac3-audio"@.len());
    }
    assert(n != "aac-audio"@) by {
        assert("unix-executable"@.len() != "aac-audio"@.len());
    }
    assert(n != "video"@) by {
        assert("unix-executable"@.len() != "video"@.len());
    }
    assert(n != "mpeg2-transport-stream"@) by {
        assert("unix-executable"@.len() != "mpeg2-transport-stream"@.len());
    }
    assert(n != "movie"@) by {
        assert("unix-executable"@.len() != "movie"@.len());
    }
    assert(n != "quicktime-movie"@) by {
        assert("unix-executable"@[0] != "quicktime-movie"@[0]);
    }
    assert(n != "mp4-movie"@) by {
        assert("unix-executable"@.len() != "mp4-movie"@.len());
    }
    assert(n != "apple-protected-mp4-video"@) by {
        assert("unix-executable"@.len() != "apple-protected-mp4-video"@.len());
    }
    assert(n != "mpeg"@) by {
        assert("unix-executable"@.len() != "mpeg"@.len());
    }
    assert(n != "mpeg2-video"@) by {
        assert("unix-executable"@.len() != "mpeg2-video"@.len());
    }
    assert(n != "avi"@) by {
        assert("unix-executable"@.len() != "avi"@.len());
    }
    assert(n != "dv-movie"@) by {
        assert("unix-executable"@.len() != "dv-movie"@.len());
    }
    assert(n != "real-media"@) by {
        assert("unix-executable"@.len() != "real-media"@.len());
    }
    assert(n != "real-audio"@) by {
        assert("unix-executable"@.len() != "real-audio"@.len());
    }
    assert(n != "webm"@) by {
        assert("unix-executable"@.len() != "webm"@.len());
    }
    assert(n != "matroska"@) by {
        assert("unix-executable"@.len() != "matroska"@.len());
    }
    assert(n != "m3u-playlist"@) by {
        assert("unix-executable"@.len() != "m3u-playlist"@.len());
    }
    assert(n != "archive"@) by {
        assert("unix-executable"@.len() != "archive"@.len());
    }
    assert(n != "zip"@) by {
        assert("unix-executable"@.len() != "zip"@.len());
    }
    assert(n != "gzip"@) by {
        assert("unix-executable"@.len() != "gzip"@.len());
    }
    assert(n != "tar"@) by {
        assert("unix-executable"@.len() != "tar"@.len());
    }
    assert(n != "bz2"@) by {
        assert("unix-executable"@.len() != "bz2"@.len());
    }
    assert(n != "apple-archive"@) by {
        assert("unix-executable"@.len() != "apple-archive"@.len());
    }
    assert(n != "sourcecode"@) by {
        assert("unix-executable"@.len() != "sourcecode"@.len());
    }
    assert(n != "c-source"@) by {
        assert("unix-executable"@.len() != "c-source"@.len());
    }
    assert(n != "c-header"@) by {
        assert("unix-executable"@.len() != "c-header"@.len());
    }
    assert(n != "cpp-source"@) by {
        assert("unix-executable"@.len() != "cpp-source"@.len());
    }
    assert(n != "cpp-header"@) by {
        assert("unix-executable"@.len() != "cpp-header"@.len());
    }
    assert(n != "objc-source"@) by {
        assert("unix-executable"@.len() != "objc-source"@.len());
    }
    assert(n != "objc-plus-plus-source"@) by {
        assert("unix-executable"@.len() != "objc-plus-plus-source"@.len());
    }
    assert(n != "swift-source"@) by {
        assert("unix-executable"@.len() != "swift-source"@.len());
    }
    assert(n != "shell"@) by {
        assert("unix-executable"@.len() != "shell"@.len());
    }
    assert(n != "makefile"@) by {
        assert("unix-executable"@.len() != "makefile"@.len());
    }
    assert(n != "javascript"@) by {
        assert("unix-executable"@.len() != "javascript"@.len());
    }
    assert(n != "python-script"@) by {
        assert("unix-executable"@.len() != "python-script"@.len());
    }
    assert(n != "ruby-script"@) by {
        assert("unix-executable"@.len() != "ruby-script"@.len());
    }
    assert(n != "perl-script"@) by {
        assert("unix-executable"@.len() != "perl-script"@.len());
    }
    assert(n != "php-script"@) by {
        assert("unix-executable"@.len() != "php-script"@.len());
    }
    assert(n != "apple-script"@) by {
        assert("unix-executable"@.len() != "apple-script"@.len());
    }
    assert(n != "assembly-source"@) by {
        assert("unix-executable"@[0] != "assembly-source"@[0]);
    }
    assert(n != "data"@) by {
        assert("unix-executable"@.len() != "data"@.len());
    }
    assert(n != "directory"@) by {
        assert("unix-executable"@.len() != "directory"@.len());
    }
    assert(n != "folder"@) by {
        assert("unix-executable"@.len() != "folder"@.len());
    }
    assert(n != "symlink"@) by {
        assert("unix-executable"@.len() != "symlink"@.len());
    }
    assert(n != "executable"@) by {
        assert("unix-executable"@.len() != "executable"@.len());
    }
    assert(parse_spec(n) == Some(SuperType::UnixExecutable));
}

proof fn lemma_display_parse_appbundle()
    ensures
        parse_spec(normalized(name_spec(SuperType::AppBundle))) == Some(SuperType::AppBundle),
{
    reveal_strlit("app-bundle");
    reveal_strlit("text");
    reveal_strlit("plain-text");
    reveal_strlit("csv");
    reveal_strlit("json");
    reveal_strlit("xml");
    reveal_strlit("yaml");
    reveal_strlit("html");
    reveal_strlit("markdown");
    reveal_strlit("rtf");
    reveal_strlit("image");
    reveal_strlit("raw-image");
    reveal_strlit("png");
    reveal_strlit("jpeg");
    reveal_strlit("gif");
    reveal_strlit("tiff");
    reveal_strlit("svg");
    reveal_strlit("webp");
    reveal_strlit("heic");
    reveal_strlit("heif");
    reveal_strlit("bmp");
    reveal_strlit("audio");
    reveal_strlit("mp3");
    reveal_strlit("wav");
    reveal_strlit("aiff");
    reveal_strlit("midi");
    reveal_strlit("mp4-audio");
    reveal_strlit("apple-protected-mp4-audio");
    reveal_strlit("flac");
    reveal_strlit("ogg-audio");
    reveal_strlit("ac3-audio");
    reveal_strlit("aac-audio");
    reveal_strlit("video");
    reveal_strlit("mpeg2-transport-stream");
    reveal_strlit("movie");
    reveal_strlit("quicktime-movie");
    reveal_strlit("mp4-movie");
    reveal_strlit("apple-protected-mp4-video");
    reveal_strlit("mpeg");
    reveal_strlit("mpeg2-video");
    reveal_strlit("avi");
    reveal_strlit("dv-movie");
    reveal_strlit("real-media");
    reveal_strlit("real-audio");
    reveal_strlit("webm");
    reveal_strlit("matroska");
    reveal_strlit("m3u-playlist");
    reveal_strlit("archive");
    reveal_strlit("zip");
    reveal_strlit("gzip");
    reveal_strlit("tar");
    reveal_strlit("bz2");
    reveal_strlit("apple-archive");
    reveal_strlit("sourcecode");
    reveal_strlit("c-source");
    reveal_strlit("c-header");
    reveal_strlit("cpp-source");
    reveal_strlit("cpp-header");
    reveal_strlit("objc-source");
    reveal_strlit("objc-plus-plus-source");
    reveal_strlit("swift-source");
    reveal_strlit("shell");
    reveal_strlit("makefile");
    reveal_strlit("javascript");
    reveal_strlit("python-script");
    reveal_strlit("ruby-script");
    reveal_strlit("perl-script");
    reveal_strlit("php-script");
    reveal_strlit("apple-script");
    reveal_strlit("assembly-source");
    reveal_strlit("data");
    reveal_strlit("directory");
    reveal_strlit("folder");
    reveal_strlit("symlink");
    reveal_strlit("executable");
    reveal_strlit("unix-executable");
    assert(normalized(name_spec(SuperType::AppBundle)) =~= "app-bundle"@);
    let n = normalized(name_spec(SuperType::AppBundle));
    assert(n != "text"@) by {
        assert("app-bundle"@.len() != "text"@.len());
    }
    assert(n != "plain-text"@) by {
        assert("app-bundle"@[0] != "plain-text"@[0]);
    }
    assert(n != "csv"@) by {
        assert("app-bundle"@.len() != "csv"@.len());
    }
    assert(n != "json"@) by {
        assert("app-bundle"@.len() != "json"@.len());
    }
    assert(n != "xml"@) by {
        assert("app-bundle"@.len() != "xml"@.len());
    }
    assert(n != "yaml"@) by {
        assert("app-bundle"@.len() != "yaml"@.len());
    }
    assert(n != "html"@) by {
        assert("app-bundle"@.len() != "html"@.len());
    }
    assert(n != "markdown"@) by {
        assert("app-bundle"@.len() != "markdown"@.len());
    }
    assert(n != "rtf"@) by {
        assert("app-bundle"@.len() != "rtf"@.len());
    }
    assert(n != "image"@) by {
        assert("app-bundle"@.len() != "image"@.len());
    }
    assert(n != "raw-image"@) by {
        assert("app-bundle"@.len() != "raw-image"@.len());
    }
    assert(n != "png"@) by {
        assert("app-bundle"@.len() != "png"@.len());
    }
    assert(n != "jpeg"@) by {
        assert("app-bundle"@.len() != "jpeg"@.len());
    }
    assert(n != "gif"@) by {
        assert("app-bundle"@.len() != "gif"@.len());
    }
    assert(n != "tiff"@) by {
        assert("app-bundle"@.len() != "tiff"@.len());
    }
    assert(n != "svg"@) by {
        assert("app-bundle"@.len() != "svg"@.len());
    }
    assert(n != "webp"@) by {
        assert("app-bundle"@.len() != "webp"@.len());
    }
    assert(n != "heic"@) by {
        assert("app-bundle"@.len() != "heic"@.len());
    }
    assert(n != "heif"@) by {
        assert("app-bundle"@.len() != "heif"@.len());
    }
    assert(n != "bmp"@) by {
        assert("app-bundle"@.len() != "bmp"@.len());
    }
    assert(n != "audio"@) by {
        assert("app-bundle"@.len() != "audio"@.len());
    }
    assert(n != "mp3"@) by {
        assert("app-bundle"@.len() != "mp3"@.len());
    }
    assert(n != "wav"@) by {
        assert("app-bundle"@.len() != "wav"@.len());
    }
    assert(n != "aiff"@) by {
        assert("app-bundle"@.len() != "aiff"@.len());
    }
    assert(n != "midi"@) by {
        assert("app-bundle"@.len() != "midi"@.len());
    }
    assert(n != "mp4-audio"@) by {
        assert("app-bundle"@.len() != "mp4-audio"@.len());
    }
    assert(n != "apple-protected-mp4-audio"@) by {
        assert("app-bundle"@.len() != "apple-protected-mp4-audio"@.len());
    }
    assert(n != "flac"@) by {
        assert("app-bundle"@.len() != "flac"@.len());
    }
    assert(n != "ogg-audio"@) by {
        assert("app-bundle"@.len() != "ogg-audio"@.len());
    }
    assert(n != "ac3-audio"@) by {
        assert("app-bundle"@.len() != "ac3-audio"@.len());
    }
    assert(n != "aac-audio"@) by {
        assert("app-bundle"@.len() != "aac-audio"@.len());
    }
    assert(n != "video"@) by {
        assert("app-bundle"@.len() != "video"@.len());
    }
    assert(n != "mpeg2-transport-stream"@) by {
        assert("app-bundle"@.len() != "mpeg2-transport-stream"@.len());
    }
    assert(n != "movie"@) by {
        assert("app-bundle"@.len() != "movie"@.len());
    }
    assert(n != "quicktime-movie"@) by {
        assert("app-bundle"@.len() != "quicktime-movie"@.len());
    }
    assert(n != "mp4-movie"@) by {
        assert("app-bundle"@.len() != "mp4-movie"@.len());
    }
    assert(n != "apple-protected-mp4-video"@) by {
        assert("app-bundle"@.len() != "apple-protected-mp4-video"@.len());
    }
    assert(n != "mpeg"@) by {
        assert("app-bundle"@.len() != "mpeg"@.len());
    }
    assert(n != "mpeg2-video"@) by {
        assert("app-bundle"@.len() != "mpeg2-video"@.len());
    }
    assert(n != "avi"@) by {
        assert("app-bundle"@.len() != "avi"@.len());
    }
    assert(n != "dv-movie"@) by {
        assert("app-bundle"@.len() != "dv-movie"@.len());
    }
    assert(n != "real-media"@) by {
        assert("app-bundle"@[0] != "real-media"@[0]);
    }
    assert(n != "real-audio"@) by {
        assert("app-bundle"@[0] != "real-audio"@[0]);
    }
    assert(n != "webm"@) by {
        assert("app-bundle"@.len() != "webm"@.len());
    }
    assert(n != "matroska"@) by {
        assert("app-bundle"@.len() != "matroska"@.len());
    }
    assert(n != "m3u-playlist"@) by {
        assert("app-bundle"@.len() != "m3u-playlist"@.len());
    }
    assert(n != "archive"@) by {
        assert("app-bundle"@.len() != "archive"@.len());
    }
    assert(n != "zip"@) by {
        assert("app-bundle"@.len() != "zip"@.len());
    }
    assert(n != "gzip"@) by {
        assert("app-bundle"@.len() != "gzip"@.len());
    }
    assert(n != "tar"@) by {
        assert("app-bundle"@.len() != "tar"@.len());
    }
    assert(n != "bz2"@) by {
        assert("app-bundle"@.len() != "bz2"@.len());
    }
    assert(n != "apple-archive"@) by {
        assert("app-bundle"@.len() != "apple-archive"@.len());
    }
    assert(n != "sourcecode"@) by {
        assert("app-bundle"@[0] != "sourcecode"@[0]);
    }
    assert(n != "c-source"@) by {
        assert("app-bundle"@.len() != "c-source"@.len());
    }
    assert(n != "c-header"@) by {
        assert("app-bundle"@.len() != "c-header"@.len());
    }
    assert(n != "cpp-source"@) by {
        assert("app-bundle"@[0] != "cpp-source"@[0]);
    }
    assert(n != "cpp-header"@) by {
        assert("app-bundle"@[0] != "cpp-header"@[0]);
    }
    assert(n != "objc-source"@) by {
        assert("app-bundle"@.len() != "objc-source"@.len());
    }
    assert(n != "objc-plus-plus-source"@) by {
        assert("app-bundle"@.len() != "objc-plus-plus-source"@.len());
    }
    assert(n != "swift-source"@) by {
        assert("app-bundle"@.len() != "swift-source"@.len());
    }
    assert(n != "shell"@) by {
        assert("app-bundle"@.len() != "shell"@.len());
    }
    assert(n != "makefile"@) by {
        assert("app-bundle"@.len() != "makefile"@.len());
    }
    assert(n != "javascript"@) by {
        assert("app-bundle"@[0] != "javascript"@[0]);
    }
    assert(n != "python-script"@) by {
        assert("app-bundle"@.len() != "python-script"@.len());
    }
    assert(n != "ruby-script"@) by {
        assert("app-bundle"@.len() != "ruby-script"@.len());
    }
    assert(n != "perl-script"@) by {
        assert("app-bundle"@.len() != "perl-script"@.len());
    }
    assert(n != "php-script"@) by {
        assert("app-bundle"@[0] != "php-script"@[0]);
    }
    assert(n != "apple-script"@) by {
        assert("app-bundle"@.len() != "apple-script"@.len());
    }
    assert(n != "assembly-source"@) by {
        assert("app-bundle"@.len() != "assembly-source"@.len());
    }
    assert(n != "data"@) by {
        assert("app-bundle"@.len() != "data"@.len());
    }
    assert(n != "directory"@) by {
        assert("app-bundle"@.len() != "directory"@.len());
    }
    assert(n != "folder"@) by {
        assert("app-bundle"@.len() != "folder"@.len());
    }
    assert(n != "symlink"@) by {
        assert("app-bundle"@.len() != "symlink"@.len());
    }
    assert(n != "executable"@) by {
        assert("app-bundle"@[0] != "executable"@[0]);
    }
    assert(n != "unix-executable"@) by {
        assert("app-bundle"@.len() != "unix-executable"@.len());
    }
    assert(parse_spec(n) == Some(SuperType::AppBundle));
}

proof fn lemma_display_parse_framework()
    ensures
        parse_spec(normalized(name_spec(SuperType::Framework))) == Some(SuperType::Framework),
{
    reveal_strlit("framework");
    reveal_strlit("text");
    reveal_strlit("plain-text");
    reveal_strlit("csv");
    reveal_strlit("json");
    reveal_strlit("xml");
    reveal_strlit("yaml");
    reveal_strlit("html");
    reveal_strlit("markdown");
    reveal_strlit("rtf");
    reveal_strlit("image");
    reveal_strlit("raw-image");
    reveal_strlit("png");
    reveal_strlit("jpeg");
    reveal_strlit("gif");
    reveal_strlit("tiff");
    reveal_strlit("svg");
    reveal_strlit("webp");
    reveal_strlit("heic");
    reveal_strlit("heif");
    reveal_strlit("bmp");
    reveal_strlit("audio");
    reveal_strlit("mp3");
    reveal_strlit("wav");
    reveal_strlit("aiff");
    reveal_strlit("midi");
    reveal_strlit("mp4-audio");
    reveal_strlit("apple-protected-mp4-audio");
    reveal_strlit("flac");
    reveal_strlit("ogg-audio");
    reveal_strlit("ac3-audio");
    reveal_strlit("aac-audio");
    reveal_strlit("video");
    reveal_strlit("mpeg2-transport-stream");
    reveal_strlit("movie");
    reveal_strlit("quicktime-movie");
    reveal_strlit("mp4-movie");
    reveal_strlit("apple-protected-mp4-video");
    reveal_strlit("mpeg");
    reveal_strlit("mpeg2-video");
    reveal_strlit("avi");
    reveal_strlit("dv-movie");
    reveal_strlit("real-media");
    reveal_strlit("real-audio");
    reveal_strlit("webm");
    reveal_strlit("matroska");
    reveal_strlit("m3u-playlist");
    reveal_strlit("archive");
    reveal_strlit("zip");
    reveal_strlit("gzip");
    reveal_strlit("tar");
    reveal_strlit("bz2");
    reveal_strlit("apple-archive");
    reveal_strlit("sourcecode");
    reveal_strlit("c-source");
    reveal_strlit("c-header");
    reveal_strlit("cpp-source");
    reveal_strlit("cpp-header");
    reveal_strlit("objc-source");
    reveal_strlit("objc-plus-plus-source");
    reveal_strlit("swift-source");
    reveal_strlit("shell");
    reveal_strlit("makefile");
    reveal_strlit("javascript");
    reveal_strlit("python-script");
    reveal_strlit("ruby-script");
    reveal_strlit("perl-script");
    reveal_strlit("php-script");
    reveal_strlit("apple-script");
    reveal_strlit("assembly-source");
    reveal_strlit("data");
    reveal_strlit("directory");
    reveal_strlit("folder");
    reveal_strlit("symlink");
    reveal_strlit("executable");
    reveal_strlit("unix-executable");
    reveal_strlit("app-bundle");
    assert(normalized(name_spec(SuperType::Framework)) =~= "framework"@);
    let n = normalized(name_spec(SuperType::Framework));
    assert(n != "text"@) by {
        assert("framework"@.len() != "text"@.len());
    }
    assert(n != "plain-text"@) by {
        assert("framework"@.len() != "plain-text"@.len());
    }
    assert(n != "csv"@) by {
        assert("framework"@.len() != "csv"@.len());
    }
    assert(n != "json"@) by {
        assert("framework"@.len() != "json"@.len());
    }
    assert(n != "xml"@) by {
        assert("framework"@.len() != "xml"@.len());
    }
    assert(n != "yaml"@) by {
        assert("framework"@.len() != "yaml"@.len());
    }
    assert(n != "html"@) by {
        assert("framework"@.len() != "html"@.len());
    }
    assert(n != "markdown"@) by {
        assert("framework"@.len() != "markdown"@.len());
    }
    assert(n != "rtf"@) by {
        assert("framework"@.len() != "rtf"@.len());
    }
    assert(n != "image"@) by {
        assert("framework"@.len() != "image"@.len());
    }
    assert(n != "raw-image"@) by {
        assert("framework"@[0] != "raw-image"@[0]);
    }
    assert(n != "png"@) by {
        assert("framework"@.len() != "png"@.len());
    }
    assert(n != "jpeg"@) by {
        assert("framework"@.len() != "jpeg"@.len());
    }
    assert(n != "gif"@) by {
        assert("framework"@.len() != "gif"@.len());
    }
    assert(n != "tiff"@) by {
        assert("framework"@.len() != "tiff"@.len());
    }
    assert(n != "svg"@) by {
        assert("framework"@.len() != "svg"@.len());
    }
    assert(n != "webp"@) by {
        assert("framework"@.len() != "webp"@.len());
    }
    assert(n != "heic"@) by {
        assert("framework"@.len() != "heic"@.len());
    }
    assert(n != "heif"@) by {
        assert("framework"@.len() != "heif"@.len());
    }
    assert(n != "bmp"@) by {
        assert("framework"@.len() != "bmp"@.len());
    }
    assert(n != "audio"@) by {
        assert("framework"@.len() != "audio"@.len());
    }
    assert(n != "mp3"@) by {
        assert("framework"@.len() != "mp3"@.len());
    }
    assert(n != "wav"@) by {
        assert("framework"@.len() != "wav"@.len());
    }
    assert(n != "aiff"@) by {
        assert("framework"@.len() != "aiff"@.len());
    }
    assert(n != "midi"@) by {
        assert("framework"@.len() != "midi"@.len());
    }
    assert(n != "mp4-audio"@) by {
        assert("framework"@[0] != "mp4-audio"@[0]);
    }
    assert(n != "apple-protected-mp4-audio"@) by {
        assert("framework"@.len() != "apple-protected-mp4-audio"@.len());
    }
    assert(n != "flac"@) by {
        assert("framework"@.len() != "flac"@.len());
    }
    assert(n != "ogg-audio"@) by {
        assert("framework"@[0] != "ogg-audio"@[0]);
    }
    assert(n != "ac3-audio"@) by {
        assert("framework"@[0] != "ac3-audio"@[0]);
    }
    assert(n != "aac-audio"@) by {
        assert("framework"@[0] != "aac-audio"@[0]);
    }
    assert(n != "video"@) by {
        assert("framework"@.len() != "video"@.len());
    }
    assert(n != "mpeg2-transport-stream"@) by {
        assert("framework"@.len() != "mpeg2-transport-stream"@.len());
    }
    assert(n != "movie"@) by {
        assert("framework"@.len() != "movie"@.len());
    }
    assert(n != "quicktime-movie"@) by {
        assert("framework"@.len() != "quicktime-movie"@.len());
    }
    assert(n != "mp4-movie"@) by {
        assert("framework"@[0] != "mp4-movie"@[0]);
    }
    assert(n != "apple-protected-mp4-video"@) by {
        assert("framework"@.len() != "apple-protected-mp4-video"@.len());
    }
    assert(n != "mpeg"@) by {
        assert("framework"@.len() != "mpeg"@.len());
    }
    assert(n != "mpeg2-video"@) by {
        assert("framework"@.len() != "mpeg2-video"@.len());
    }
    assert(n != "avi"@) by {
        assert("framework"@.len() != "avi"@.len());
    }
    assert(n != "dv-movie"@) by {
        assert("framework"@.len() != "dv-movie"@.len());
    }
    assert(n != "real-media"@) by {
        assert("framework"@.len() != "real-media"@.len());
    }
    assert(n != "real-audio"@) by {
        assert("framework"@.len() != "real-audio"@.len());
    }
    assert(n != "webm"@) by {
        assert("framework"@.len() != "webm"@.len());
    }
    assert(n != "matroska"@) by {
        assert("framework"@.len() != "matroska"@.len());
    }
    assert(n != "m3u-playlist"@) by {
        assert("framework"@.len() != "m3u-playlist"@.len());
    }
    assert(n != "archive"@) by {
        assert("framework"@.len() != "archive"@.len());
    }
    assert(n != "zip"@) by {
        assert("framework"@.len() != "zip"@.len());
    }
    assert(n != "gzip"@) by {
        assert("framework"@.len() != "gzip"@.len());
    }
    assert(n != "tar"@) by {
        assert("framework"@.len() != "tar"@.len());
    }
    assert(n != "bz2"@) by {
        assert("framework"@.len() != "bz2"@.len());
    }
    assert(n != "apple-archive"@) by {
        assert("framework"@.len() != "apple-archive"@.len());
    }
    assert(n != "sourcecode"@) by {
        assert("framework"@.len() != "sourcecode"@.len());
    }
    assert(n != "c-source"@) by {
        assert("framework"@.len() != "c-source"@.len());
    }
    assert(n != "c-header"@) by {
        assert("framework"@.len() != "c-header"@.len());
    }
    assert(n != "cpp-source"@) by {
        assert("framework"@.len() != "cpp-source"@.len());
    }
    assert(n != "cpp-header"@) by {
        assert("framework"@.len() != "cpp-header"@.len());
    }
    assert(n != "objc-source"@) by {
        assert("framework"@.len() != "objc-source"@.len());
    }
    assert(n != "objc-plus-plus-source"@) by {
        assert("framework"@.len() != "objc-plus-plus-source"@.len());
    }
    assert(n != "swift-source"@) by {
        assert("framework"@.len() != "swift-source"@.len());
    }
    assert(n != "shell"@) by {
        assert("framework"@.len() != "shell"@.len());
    }
    assert(n != "makefile"@) by {
        assert("framework"@.len() != "makefile"@.len());
    }
    assert(n != "javascript"@) by {
        assert("framework"@.len() != "javascript"@.len());
    }
    assert(n != "python-script"@) by {
        assert("framework"@.len() != "python-script"@.len());
    }
    assert(n != "ruby-script"@) by {
        assert("framework"@.len() != "ruby-script"@.len());
    }
    assert(n != "perl-script"@) by {
        assert("framework"@.len() != "perl-script"@.len());
    }
    assert(n != "php-script"@) by {
        assert("framework"@.len() != "php-script"@.len());
    }
    assert(n != "apple-script"@) by {
        assert("framework"@.len() != "apple-script"@.len());
    }
    assert(n != "assembly-source"@) by {
        assert("framework"@.len() != "assembly-source"@.len());
    }
    assert(n != "data"@) by {
        assert("framework"@.len() != "data"@.len());
    }
    assert(n != "directory"@) by {
        assert("framework"@[0] != "directory"@[0]);
    }
    assert(n != "folder"@) by {
        assert("framework"@.len() != "folder"@.len());
    }
    assert(n != "symlink"@) by {
        assert("framework"@.len() != "symlink"@.len());
    }
    assert(n != "executable"@) by {
        assert("framework"@.len() != "executable"@.len());
    }
    assert(n != "unix-executable"@) by {
        assert("framework"@.len() != "unix-executable"@.len());
    }
    assert(n != "app-bundle"@) by {
        assert("framework"@.len() != "app-bundle"@.len());
    }
    assert(parse_spec(n) == Some(SuperType::Framework));
}

proof fn lemma_display_parse_diskimage()
    ensures
        parse_spec(normalized(name_spec(SuperType::DiskImage))) == Some(SuperType::DiskImage),
{
    reveal_strlit("disk-image");
    reveal_strlit("text");
    reveal_strlit("plain-text");
    reveal_strlit("csv");
    reveal_strlit("json");
    reveal_strlit("xml");
    reveal_strlit("yaml");
    reveal_strlit("html");
    reveal_strlit("markdown");
    reveal_strlit("rtf");
    reveal_strlit("image");
    reveal_strlit("raw-image");
    reveal_strlit("png");
    reveal_strlit("jpeg");
    reveal_strlit("gif");
    reveal_strlit("tiff");
    reveal_strlit("svg");
    reveal_strlit("webp");
    reveal_strlit("heic");
    reveal_strlit("heif");
    reveal_strlit("bmp");
    reveal_strlit("audio");
    reveal_strlit("mp3");
    reveal_strlit("wav");
    reveal_strlit("aiff");
    reveal_strlit("midi");
    reveal_strlit("mp4-audio");
    reveal_strlit("apple-protected-mp4-audio");
    reveal_strlit("flac");
    reveal_strlit("ogg-audio");
    reveal_strlit("ac3-audio");
    reveal_strlit("aac-audio");
    reveal_strlit("video");
    reveal_strlit("mpeg2-transport-stream");
    reveal_strlit("movie");
    reveal_strlit("quicktime-movie");
    reveal_strlit("mp4-movie");
    reveal_strlit("apple-protected-mp4-video");
    reveal_strlit("mpeg");
    reveal_strlit("mpeg2-video");
    reveal_strlit("avi");
    reveal_strlit("dv-movie");
    reveal_strlit("real-media");
    reveal_strlit("real-audio");
    reveal_strlit("webm");
    reveal_strlit("matroska");
    reveal_strlit("m3u-playlist");
    reveal_strlit("archive");
    reveal_strlit("zip");
    reveal_strlit("gzip");
    reveal_strlit("tar");
    reveal_strlit("bz2");
    reveal_strlit("apple-archive");
    reveal_strlit("sourcecode");
    reveal_strlit("c-source");
    reveal_strlit("c-header");
    reveal_strlit("cpp-source");
    reveal_strlit("cpp-header");
    reveal_strlit("objc-source");
    reveal_strlit("objc-plus-plus-source");
    reveal_strlit("swift-source");
    reveal_strlit("shell");
    reveal_strlit("makefile");
    reveal_strlit("javascript");
    reveal_strlit("python-script");
    reveal_strlit("ruby-script");
    reveal_strlit("perl-script");
    reveal_strlit("php-script");
    reveal_strlit("apple-script");
    reveal_strlit("assembly-source");
    reveal_strlit("data");
    reveal_strlit("directory");
    reveal_strlit("folder");
    reveal_strlit("symlink");
    reveal_strlit("executable");
    reveal_strlit("unix-executable");
    reveal_strlit("app-bundle");
    reveal_strlit("framework");
    assert(normalized(name_spec(SuperType::DiskImage)) =~= "disk-image"@);
    let n = normalized(name_spec(SuperType::DiskImage));
    assert(n != "text"@) by {
        assert("disk-image"@.len() != "text"@.len());
    }
    assert(n != "plain-text"@) by {
        assert("disk-image"@[0] != "plain-text"@[0]);
    }
    assert(n != "csv"@) by {
        assert("disk-image"@.len() != "csv"@.len());
    }
    assert(n != "json"@) by {
        assert("disk-image"@.len() != "json"@.len());
    }
    assert(n != "xml"@) by {
        assert("disk-image"@.len() != "xml"@.len());
    }
    assert(n != "yaml"@) by {
        assert("disk-image"@.len() != "yaml"@.len());
    }
    assert(n != "html"@) by {
        assert("disk-image"@.len() != "html"@.len());
    }
    assert(n != "markdown"@) by {
        assert("disk-image"@.len() != "markdown"@.len());
    }
    assert(n != "rtf"@) by {
        assert("disk-image"@.len() != "rtf"@.len());
    }
    assert(n != "image"@) by {
        assert("disk-image"@.len() != "image"@.len());
    }
    assert(n != "raw-image"@) by {
        assert("disk-image"@.len() != "raw-image"@.len());
    }
    assert(n != "png"@) by {
        assert("disk-image"@.len() != "png"@.len());
    }
    assert(n != "jpeg"@) by {
        assert("disk-image"@.len() != "jpeg"@.len());
    }
    assert(n != "gif"@) by {
        assert("disk-image"@.len() != "gif"@.len());
    }
    assert(n != "tiff"@) by {
        assert("disk-image"@.len() != "tiff"@.len());
    }
    assert(n != "svg"@) by {
        assert("disk-image"@.len() != "svg"@.len());
    }
    assert(n != "webp"@) by {
        assert("disk-image"@.len() != "webp"@.len());
    }
    assert(n != "heic"@) by {
        assert("disk-image"@.len() != "heic"@.len());
    }
    assert(n != "heif"@) by {
        assert("disk-image"@.len() != "heif"@.len());
    }
    assert(n != "bmp"@) by {
        assert("disk-image"@.len() != "bmp"@.len());
    }
    assert(n != "audio"@) by {
        assert("disk-image"@.len() != "audio"@.len());
    }
    assert(n != "mp3"@) by {
        assert("disk-image"@.len() != "mp3"@.len());
    }
    assert(n != "wav"@) by {
        assert("disk-image"@.len() != "wav"@.len());
    }
    assert(n != "aiff"@) by {
        assert("disk-image"@.len() != "aiff"@.len());
    }
    assert(n != "midi"@) by {
        assert("disk-image"@.len() != "midi"@.len());
    }
    assert(n != "mp4-audio"@) by {
        assert("disk-image"@.len() != "mp4-audio"@.len());
    }
    assert(n != "apple-protected-mp4-audio"@) by {
        assert("disk-image"@.len() != "apple-protected-mp4-audio"@.len());
    }
    assert(n != "flac"@) by {
        assert("disk-image"@.len() != "flac"@.len());
    }
    assert(n != "ogg-audio"@) by {
        assert("disk-image"@.len() != "ogg-audio"@.len());
    }
    assert(n != "ac3-audio"@) by {
        assert("disk-image"@.len() != "ac3-audio"@.len());
    }
    assert(n != "aac-audio"@) by {
        assert("disk-image"@.len() != "aac-audio"@.len());
    }
    assert(n != "video"@) by {
        assert("disk-image"@.len() != "video"@.len());
    }
    assert(n != "mpeg2-transport-stream"@) by {
        assert("disk-image"@.len() != "mpeg2-transport-stream"@.len());
    }
    assert(n != "movie"@) by {
        assert("disk-image"@.len() != "movie"@.len());
    }
    assert(n != "quicktime-movie"@) by {
        assert("disk-image"@.len() != "quicktime-movie"@.len());
    }
    assert(n != "mp4-movie"@) by {
        assert("disk-image"@.len() != "mp4-movie"@.len());
    }
    assert(n != "apple-protected-mp4-video"@) by {
        assert("disk-image"@.len() != "apple-protected-mp4-video"@.len());
    }
    assert(n != "mpeg"@) by {
        assert("disk-image"@.len() != "mpeg"@.len());
    }
    assert(n != "mpeg2-video"@) by {
        assert("disk-image"@.len() != "mpeg2-video"@.len());
    }
    assert(n != "avi"@) by {
        assert("disk-image"@.len() != "avi"@.len());
    }
    assert(n != "dv-movie"@) by {
        assert("disk-image"@.len() != "dv-movie"@.len());
    }
    assert(n != "real-media"@) by {
        assert("disk-image"@[0] != "real-media"@[0]);
    }
    assert(n != "real-audio"@) by {
        assert("disk-image"@[0] != "real-audio"@[0]);
    }
    assert(n != "webm"@) by {
        assert("disk-image"@.len() != "webm"@.len());
    }
    assert(n != "matroska"@) by {
        assert("disk-image"@.len() != "matroska"@.len());
    }
    assert(n != "m3u-playlist"@) by {
        assert("disk-image"@.len() != "m3u-playlist"@.len());
    }
    assert(n != "archive"@) by {
        assert("disk-image"@.len() != "archive"@.len());
    }
    assert(n != "zip"@) by {
        assert("disk-image"@.len() != "zip"@.len());
    }
    assert(n != "gzip"@) by {
        assert("disk-image"@.len() != "gzip"@.len());
    }
    assert(n != "tar"@) by {
        assert("disk-image"@.len() != "tar"@.len());
    }
    assert(n != "bz2"@) by {
        assert("disk-image"@.len() != "bz2"@.len());
    }
    assert(n != "apple-archive"@) by {
        assert("disk-image"@.len() != "apple-archive"@.len());
    }
    assert(n != "sourcecode"@) by {
        assert("disk-image"@[0] != "sourcecode"@[0]);
    }
    assert(n != "c-source"@) by {
        assert("disk-image"@.len() != "c-source"@.len());
    }
    assert(n != "c-header"@) by {
        assert("disk-image"@.len() != "c-header"@.len());
    }
    assert(n != "cpp-source"@) by {
        assert("disk-image"@[0] != "cpp-source"@[0]);
    }
    assert(n != "cpp-header"@) by {
        assert("disk-image"@[0] != "cpp-header"@[0]);
    }
    assert(n != "objc-source"@) by {
        assert("disk-image"@.len() != "objc-source"@.len());
    }
    assert(n != "objc-plus-plus-source"@) by {
        assert("disk-image"@.len() != "objc-plus-plus-source"@.len());
    }
    assert(n != "swift-source"@) by {
        assert("disk-image"@.len() != "swift-source"@.len());
    }
    assert(n != "shell"@) by {
        assert("disk-image"@.len() != "shell"@.len());
    }
    assert(n != "makefile"@) by {
        assert("disk-image"@.len() != "makefile"@.len());
    }
    assert(n != "javascript"@) by {
        assert("disk-image"@[0] != "javascript"@[0]);
    }
    assert(n != "python-script"@) by {
        assert("disk-image"@.len() != "python-script"@.len());
    }
    assert(n != "ruby-script"@) by {
        assert("disk-image"@.len() != "ruby-script"@.len());
    }
    assert(n != "perl-script"@) by {
        assert("disk-image"@.len() != "perl-script"@.len());
    }
    assert(n != "php-script"@) by {
        assert("disk-image"@[0] != "php-script"@[0]);
    }
    assert(n != "apple-script"@) by {
        assert("disk-image"@.len() != "apple-script"@.len());
    }
    assert(n != "assembly-source"@) by {
        assert("disk-image"@.len() != "assembly-source"@.len());
    }
    assert(n != "data"@) by {
        assert("disk-image"@.len() != "data"@.len());
    }
    assert(n != "directory"@) by {
        assert("disk-image"@.len() != "directory"@.len());
    }
    assert(n != "folder"@) by {
        assert("disk-image"@.len() != "folder"@.len());
    }
    assert(n != "symlink"@) by {
        assert("disk-image"@.len() != "symlink"@.len());
    }
    assert(n != "executable"@) by {
        assert("disk-image"@[0] != "executable"@[0]);
    }
    assert(n != "unix-executable"@) by {
        assert("disk-image"@.len() != "unix-executable"@.len());
    }
    assert(n != "app-bundle"@) by {
        assert("disk-image"@[0] != "app-bundle"@[0]);
    }
    assert(n != "framework"@) by {
        assert("disk-image"@.len() != "framework"@.len());
    }
    assert(parse_spec(n) == Some(SuperType::DiskImage));
}

proof fn lemma_display_parse_volume()
    ensures
        parse_spec(normalized(name_spec(SuperType::Volume))) == Some(SuperType::Volume),
{
    reveal_strlit("volume");
    reveal_strlit("text");
    reveal_strlit("plain-text");
    reveal_strlit("csv");
    reveal_strlit("json");
    reveal_strlit("xml");
    reveal_strlit("yaml");
    reveal_strlit("html");
    reveal_strlit("markdown");
    reveal_strlit("rtf");
    reveal_strlit("image");
    reveal_strlit("raw-image");
    reveal_strlit("png");
    reveal_strlit("jpeg");
    reveal_strlit("gif");
    reveal_strlit("tiff");
    reveal_strlit("svg");
    reveal_strlit("webp");
    reveal_strlit("heic");
    reveal_strlit("heif");
    reveal_strlit("bmp");
    reveal_strlit("audio");
    reveal_strlit("mp3");
    reveal_strlit("wav");
    reveal_strlit("aiff");
    reveal_strlit("midi");
    reveal_strlit("mp4-audio");
    reveal_strlit("apple-protected-mp4-audio");
    reveal_strlit("flac");
    reveal_strlit("ogg-audio");
    reveal_strlit("ac3-audio");
    reveal_strlit("aac-audio");
    reveal_strlit("video");
    reveal_strlit("mpeg2-transport-stream");
    reveal_strlit("movie");
    reveal_strlit("quicktime-movie");
    reveal_strlit("mp4-movie");
    reveal_strlit("apple-protected-mp4-video");
    reveal_strlit("mpeg");
    reveal_strlit("mpeg2-video");
    reveal_strlit("avi");
    reveal_strlit("dv-movie");
    reveal_strlit("real-media");
    reveal_strlit("real-audio");
    reveal_strlit("webm");
    reveal_strlit("matroska");
    reveal_strlit("m3u-playlist");
    reveal_strlit("archive");
    reveal_strlit("zip");
    reveal_strlit("gzip");
    reveal_strlit("tar");
    reveal_strlit("bz2");
    reveal_strlit("apple-archive");
    reveal_strlit("sourcecode");
    reveal_strlit("c-source");
    reveal_strlit("c-header");
    reveal_strlit("cpp-source");
    reveal_strlit("cpp-header");
    reveal_strlit("objc-source");
    reveal_strlit("objc-plus-plus-source");
    reveal_strlit("swift-source");
    reveal_strlit("shell");
    reveal_strlit("makefile");
    reveal_strlit("javascript");
    reveal_strlit("python-script");
    reveal_strlit("ruby-script");
    reveal_strlit("perl-script");
    reveal_strlit("php-script");
    reveal_strlit("apple-script");
    reveal_strlit("assembly-source");
    reveal_strlit("data");
    reveal_strlit("directory");
    reveal_strlit("folder");
    reveal_strlit("symlink");
    reveal_strlit("executable");
    reveal_strlit("unix-executable");
    reveal_strlit("app-bundle");
    reveal_strlit("framework");
    reveal_strlit("disk-image");
    assert(normalized(name_spec(SuperType::Volume)) =~= "volume"@);
    let n = normalized(name_spec(SuperType::Volume));
    assert(n != "text"@) by {
        assert("volume"@.len() != "text"@.len());
    }
    assert(n != "plain-text"@) by {
        assert("volume"@.len() != "plain-text"@.len());
    }
    assert(n != "csv"@) by {
        assert("volume"@.len() != "csv"@.len());
    }
    assert(n != "json"@) by {
        assert("volume"@.len() != "json"@.len());
    }
    assert(n != "xml"@) by {
        assert("volume"@.len() != "xml"@.len());
    }
    assert(n != "yaml"@) by {
        assert("volume"@.len() != "yaml"@.len());
    }
    assert(n != "html"@) by {
        assert("volume"@.len() != "html"@.len());
    }
    assert(n != "markdown"@) by {
        assert("volume"@.len() != "markdown"@.len());
    }
    assert(n != "rtf"@) by {
        assert("volume"@.len() != "rtf"@.len());
    }
    assert(n != "image"@) by {
        assert("volume"@.len() != "image"@.len());
    }
    assert(n != "raw-image"@) by {
        assert("volume"@.len() != "raw-image"@.len());
    }
    assert(n != "png"@) by {
        assert("volume"@.len() != "png"@.len());
    }
    assert(n != "jpeg"@) by {
        assert("volume"@.len() != "jpeg"@.len());
    }
    assert(n != "gif"@) by {
        assert("volume"@.len() != "gif"@.len());
    }
    assert(n != "tiff"@) by {
        assert("volume"@.len() != "tiff"@.len());
    }
    assert(n != "svg"@) by {
        assert("volume"@.len() != "svg"@.len());
    }
    assert(n != "webp"@) by {
        assert("volume"@.len() != "webp"@.len());
    }
    assert(n != "heic"@) by {
        assert("volume"@.len() != "heic"@.len());
    }
    assert(n != "heif"@) by {
        assert("volume"@.len() != "heif"@.len());
    }
    assert(n != "bmp"@) by {
        assert("volume"@.len() != "bmp"@.len());
    }
    assert(n != "audio"@) by {
        assert("volume"@.len() != "audio"@.len());
    }
    assert(n != "mp3"@) by {
        assert("volume"@.len() != "mp3"@.len());
    }
    assert(n != "wav"@) by {
        assert("volume"@.len() != "wav"@.len());
    }
    assert(n != "aiff"@) by {
        assert("volume"@.len() != "aiff"@.len());
    }
    assert(n != "midi"@) by {
        assert("volume"@.len() != "midi"@.len());
    }
    assert(n != "mp4-audio"@) by {
        assert("volume"@.len() != "mp4-audio"@.len());
    }
    assert(n != "apple-protected-mp4-audio"@) by {
        assert("volume"@.len() != "apple-protected-mp4-audio"@.len());
    }
    assert(n != "flac"@) by {
        assert("volume"@.len() != "flac"@.len());
    }
    assert(n != "ogg-audio"@) by {
        assert("volume"@.len() != "ogg-audio"@.len());
    }
    assert(n != "ac3-audio"@) by {
        assert("volume"@.len() != "ac3-audio"@.len());
    }
    assert(n != "aac-audio"@) by {
        assert("volume"@.len() != "aac-audio"@.len());
    }
    assert(n != "video"@) by {
        assert("volume"@.len() != "video"@.len());
    }
    assert(n != "mpeg2-transport-stream"@) by {
        assert("volume"@.len() != "mpeg2-transport-stream"@.len());
    }
    assert(n != "movie"@) by {
        assert("volume"@.len() != "movie"@.len());
    }
    assert(n != "quicktime-movie"@) by {
        assert("volume"@.len() != "quicktime-movie"@.len());
    }
    assert(n != "mp4-movie"@) by {
        assert("volume"@.len() != "mp4-movie"@.len());
    }
    assert(n != "apple-protected-mp4-video"@) by {
        assert("volume"@.len() != "apple-protected-mp4-video"@.len());
    }
    assert(n != "mpeg"@) by {
        assert("volume"@.len() != "mpeg"@.len());
    }
    assert(n != "mpeg2-video"@) by {
        assert("volume"@.len() != "mpeg2-video"@.len());
    }
    assert(n != "avi"@) by {
        assert("volume"@.len() != "avi"@.len());
    }
    assert(n != "dv-movie"@) by {
        assert("volume"@.len() != "dv-movie"@.len());
    }
    assert(n != "real-media"@) by {
        assert("volume"@.len() != "real-media"@.len());
    }
    assert(n != "real-audio"@) by {
        assert("volume"@.len() != "real-audio"@.len());
    }
    assert(n != "webm"@) by {
        assert("volume"@.len() != "webm"@.len());
    }
    assert(n != "matroska"@) by {
        assert("volume"@.len() != "matroska"@.len());
    }
    assert(n != "m3u-playlist"@) by {
        assert("volume"@.len() != "m3u-playlist"@.len());
    }
    assert(n != "archive"@) by {
        assert("volume"@.len() != "archive"@.len());
    }
    assert(n != "zip"@) by {
        assert("volume"@.len() != "zip"@.len());
    }
    assert(n != "gzip"@) by {
        assert("volume"@.len() != "gzip"@.len());
    }
    assert(n != "tar"@) by {
        assert("volume"@.len() != "tar"@.len());
    }
    assert(n != "bz2"@) by {
        assert("volume"@.len() != "bz2"@.len());
    }
    assert(n != "apple-archive"@) by {
        assert("volume"@.len() != "apple-archive"@.len());
    }
    assert(n != "sourcecode"@) by {
        assert("volume"@.len() != "sourcecode"@.len());
    }
    assert(n != "c-source"@) by {
        assert("volume"@.len() != "c-source"@.len());
    }
    assert(n != "c-header"@) by {
        assert("volume"@.len() != "c-header"@.len());
    }
    assert(n != "cpp-source"@) by {
        assert("volume"@.len() != "cpp-source"@.len());
    }
    assert(n != "cpp-header"@) by {
        assert("volume"@.len() != "cpp-header"@.len());
    }
    assert(n != "objc-source"@) by {
        assert("volume"@.len() != "objc-source"@.len());
    }
    assert(n != "objc-plus-plus-source"@) by {
        assert("volume"@.len() != "objc-plus-plus-source"@.len());
    }
    assert(n != "swift-source"@) by {
        assert("volume"@.len() != "swift-source"@.len());
    }
    assert(n != "shell"@) by {
        assert("volume"@.len() != "shell"@.len());
    }
    assert(n != "makefile"@) by {
        assert("volume"@.len() != "makefile"@.len());
    }
    assert(n != "javascript"@) by {
        assert("volume"@.len() != "javascript"@.len());
    }
    assert(n != "python-script"@) by {
        assert("volume"@.len() != "python-script"@.len());
    }
    assert(n != "ruby-script"@) by {
        assert("volume"@.len() != "ruby-script"@.len());
    }
    assert(n != "perl-script"@) by {
        assert("volume"@.len() != "perl-script"@.len());
    }
    assert(n != "php-script"@) by {
        assert("volume"@.len() != "php-script"@.len());
    }
    assert(n != "apple-script"@) by {
        assert("volume"@.len() != "apple-script"@.len());
    }
    assert(n != "assembly-source"@) by {
        assert("volume"@.len() != "assembly-source"@.len());
    }
    assert(n != "data"@) by {
        assert("volume"@.len() != "data"@.len());
    }
    assert(n != "directory"@) by {
        assert("volume"@.len() != "directory"@.len());
    }
    assert(n != "folder"@) by {
        assert("volume"@[0] != "folder"@[0]);
    }
    assert(n != "symlink"@) by {
        assert("volume"@.len() != "symlink"@.len());
    }
    assert(n != "executable"@) by {
        assert("volume"@.len() != "executable"@.len());
    }
    assert(n != "unix-executable"@) by {
        assert("volume"@.len() != "unix-executable"@.len());
    }
    assert(n != "app-bundle"@) by {
        assert("volume"@.len() != "app-bundle"@.len());
    }
    assert(n != "framework"@) by {
        assert("volume"@.len() != "framework"@.len());
    }
    assert(n != "disk-image"@) by {
        assert("volume"@.len() != "disk-image"@.len());
    }
    assert(parse_spec(n) == Some(SuperType::Volume));
}

proof fn lemma_display_parse_mountpoint()
    ensures
        parse_spec(normalized(name_spec(SuperType::MountPoint))) == Some(SuperType::MountPoint),
{
    reveal_strlit("mount-point");
    reveal_strlit("text");
    reveal_strlit("plain-text");
    reveal_strlit("csv");
    reveal_strlit("json");
    reveal_strlit("xml");
    reveal_strlit("yaml");
    reveal_strlit("html");
    reveal_strlit("markdown");
    reveal_strlit("rtf");
    reveal_strlit("image");
    reveal_strlit("raw-image");
    reveal_strlit("png");
    reveal_strlit("jpeg");
    reveal_strlit("gif");
    reveal_strlit("tiff");
    reveal_strlit("svg");
    reveal_strlit("webp");
    reveal_strlit("heic");
    reveal_strlit("heif");
    reveal_strlit("bmp");
    reveal_strlit("audio");
    reveal_strlit("mp3");
    reveal_strlit("wav");
    reveal_strlit("aiff");
    reveal_strlit("midi");
    reveal_strlit("mp4-audio");
    reveal_strlit("apple-protected-mp4-audio");
    reveal_strlit("flac");
    reveal_strlit("ogg-audio");
    reveal_strlit("ac3-audio");
    reveal_strlit("aac-audio");
    reveal_strlit("video");
    reveal_strlit("mpeg2-transport-stream");
    reveal_strlit("movie");
    reveal_strlit("quicktime-movie");
    reveal_strlit("mp4-movie");
    reveal_strlit("apple-protected-mp4-video");
    reveal_strlit("mpeg");
    reveal_strlit("mpeg2-video");
    reveal_strlit("avi");
    reveal_strlit("dv-movie");
    reveal_strlit("real-media");
    reveal_strlit("real-audio");
    reveal_strlit("webm");
    reveal_strlit("matroska");
    reveal_strlit("m3u-playlist");
    reveal_strlit("archive");
    reveal_strlit("zip");
    reveal_strlit("gzip");
    reveal_strlit("tar");
    reveal_strlit("bz2");
    reveal_strlit("apple-archive");
    reveal_strlit("sourcecode");
    reveal_strlit("c-source");
    reveal_strlit("c-header");
    reveal_strlit("cpp-source");
    reveal_strlit("cpp-header");
    reveal_strlit("objc-source");
    reveal_strlit("objc-plus-plus-source");
    reveal_strlit("swift-source");
    reveal_strlit("shell");
    reveal_strlit("makefile");
    reveal_strlit("javascript");
    reveal_strlit("python-script");
    reveal_strlit("ruby-script");
    reveal_strlit("perl-script");
    reveal_strlit("php-script");
    reveal_strlit("apple-script");
    reveal_strlit("assembly-source");
    reveal_strlit("data");
    reveal_strlit("directory");
    reveal_strlit("folder");
    reveal_strlit("symlink");
    reveal_strlit("executable");
    reveal_strlit("unix-executable");
    reveal_strlit("app-bundle");
    reveal_strlit("framework");
    reveal_strlit("disk-image");
    reveal_strlit("volume");
    assert(normalized(name_spec(SuperType::MountPoint)) =~= "mount-point"@);
    let n = normalized(name_spec(SuperType::MountPoint));
    assert(n != "text"@) by {
        assert("mount-point"@.len() != "text"@.len());
    }
    assert(n != "plain-text"@) by {
        assert("mount-point"@.len() != "plain-text"@.len());
    }
    assert(n != "csv"@) by {
        assert("mount-point"@.len() != "csv"@.len());
    }
    assert(n != "json"@) by {
        assert("mount-point"@.len() != "json"@.len());
    }
    assert(n != "xml"@) by {
        assert("mount-point"@.len() != "xml"@.len());
    }
    assert(n != "yaml"@) by {
        assert("mount-point"@.len() != "yaml"@.len());
    }
    assert(n != "html"@) by {
        assert("mount-point"@.len() != "html"@.len());
    }
    assert(n != "markdown"@) by {
        assert("mount-point"@.len() != "markdown"@.len());
    }
    assert(n != "rtf"@) by {
        assert("mount-point"@.len() != "rtf"@.len());
    }
    assert(n != "image"@) by {
        assert("mount-point"@.len() != "image"@.len());
    }
    assert(n != "raw-image"@) by {
        assert("mount-point"@.len() != "raw-image"@.len());
    }
    assert(n != "png"@) by {
        assert("mount-point"@.len() != "png"@.len());
    }
    assert(n != "jpeg"@) by {
        assert("mount-point"@.len() != "jpeg"@.len());
    }
    assert(n != "gif"@) by {
        assert("mount-point"@.len() != "gif"@.len());
    }
    assert(n != "tiff"@) by {
        assert("mount-point"@.len() != "tiff"@.len());
    }
    assert(n != "svg"@) by {
        assert("mount-point"@.len() != "svg"@.len());
    }
    assert(n != "webp"@) by {
        assert("mount-point"@.len() != "webp"@.len());
    }
    assert(n != "heic"@) by {
        assert("mount-point"@.len() != "heic"@.len());
    }
    assert(n != "heif"@) by {
        assert("mount-point"@.len() != "heif"@.len());
    }
    assert(n != "bmp"@) by {
        assert("mount-point"@.len() != "bmp"@.len());
    }
    assert(n != "audio"@) by {
        assert("mount-point"@.len() != "audio"@.len());
    }
    assert(n != "mp3"@) by {
        assert("mount-point"@.len() != "mp3"@.len());
    }
    assert(n != "wav"@) by {
        assert("mount-point"@.len() != "wav"@.len());
    }
    assert(n != "aiff"@) by {
        assert("mount-point"@.len() != "aiff"@.len());
    }
    assert(n != "midi"@) by {
        assert("mount-point"@.len() != "midi"@.len());
    }
    assert(n != "mp4-audio"@) by {
        assert("mount-point"@.len() != "mp4-audio"@.len());
    }
    assert(n != "apple-protected-mp4-audio"@) by {
        assert("mount-point"@.len() != "apple-protected-mp4-audio"@.len());
    }
    assert(n != "flac"@) by {
        assert("mount-point"@.len() != "flac"@.len());
    }
    assert(n != "ogg-audio"@) by {
        assert("mount-point"@.len() != "ogg-audio"@.len());
    }
    assert(n != "ac3-audio"@) by {
        assert("mount-point"@.len() != "ac3-audio"@.len());
    }
    assert(n != "aac-audio"@) by {
        assert("mount-point"@.len() != "aac-audio"@.len());
    }
    assert(n != "video"@) by {
        assert("mount-point"@.len() != "video"@.len());
    }
    assert(n != "mpeg2-transport-stream"@) by {
        assert("mount-point"@.len() != "mpeg2-transport-stream"@.len());
    }
    assert(n != "movie"@) by {
        assert("mount-point"@.len() != "movie"@.len());
    }
    assert(n != "quicktime-movie"@) by {
        assert("mount-point"@.len() != "quicktime-movie"@.len());
    }
    assert(n != "mp4-movie"@) by {
        assert("mount-point"@.len() != "mp4-movie"@.len());
    }
    assert(n != "apple-protected-mp4-video"@) by {
        assert("mount-point"@.len() != "apple-protected-mp4-video"@.len());
    }
    assert(n != "mpeg"@) by {
        assert("mount-point"@.len() != "mpeg"@.len());
    }
    assert(n != "mpeg2-video"@) by {
        assert("mount-point"@[1] != "mpeg2-video"@[1]);
    }
    assert(n != "avi"@) by {
        assert("mount-point"@.len() != "avi"@.len());
    }
    assert(n != "dv-movie"@) by {
        assert("mount-point"@.len() != "dv-movie"@.len());
    }
    assert(n != "real-media"@) by {
        assert("mount-point"@.len() != "real-media"@.len());
    }
    assert(n != "real-audio"@) by {
        assert("mount-point"@.len() != "real-audio"@.len());
    }
    assert(n != "webm"@) by {
        assert("mount-point"@.len() != "webm"@.len());
    }
    assert(n != "matroska"@) by {
        assert("mount-point"@.len() != "matroska"@.len());
    }
    assert(n != "m3u-playlist"@) by {
        assert("mount-point"@.len() != "m3u-playlist"@.len());
    }
    assert(n != "archive"@) by {
        assert("mount-point"@.len() != "archive"@.len());
    }
    assert(n != "zip"@) by {
        assert("mount-point"@.len() != "zip"@.len());
    }
    assert(n != "gzip"@) by {
        assert("mount-point"@.len() != "gzip"@.len());
    }
    assert(n != "tar"@) by {
        assert("mount-point"@.len() != "tar"@.len());
    }
    assert(n != "bz2"@) by {
        assert("mount-point"@.len() != "bz2"@.len());
    }
    assert(n != "apple-archive"@) by {
        assert("mount-point"@.len() != "apple-archive"@.len());
    }
    assert(n != "sourcecode"@) by {
        assert("mount-point"@.len() != "sourcecode"@.len());
    }
    assert(n != "c-source"@) by {
        assert("mount-point"@.len() != "c-source"@.len());
    }
    assert(n != "c-header"@) by {
        assert("mount-point"@.len() != "c-header"@.len());
    }
    assert(n != "cpp-source"@) by {
        assert("mount-point"@.len() != "cpp-source"@.len());
    }
    assert(n != "cpp-header"@) by {
        assert("mount-point"@.len() != "cpp-header"@.len());
    }
    assert(n != "objc-source"@) by {
        assert("mount-point"@[0] != "objc-source"@[0]);
    }
    assert(n != "objc-plus-plus-source"@) by {
        assert("mount-point"@.len() != "objc-plus-plus-source"@.len());
    }
    assert(n != "swift-source"@) by {
        assert("mount-point"@.len() != "swift-source"@.len());
    }
    assert(n != "shell"@) by {
        assert("mount-point"@.len() != "shell"@.len());
    }
    assert(n != "makefile"@) by {
        assert("mount-point"@.len() != "makefile"@.len());
    }
    assert(n != "javascript"@) by {
        assert("mount-point"@.len() != "javascript"@.len());
    }
    assert(n != "python-script"@) by {
        assert("mount-point"@.len() != "python-script"@.len());
    }
    assert(n != "ruby-script"@) by {
        assert("mount-point"@[0] != "ruby-script"@[0]);
    }
    assert(n != "perl-script"@) by {
        assert("mount-point"@[0] != "perl-script"@[0]);
    }
    assert(n != "php-script"@) by {
        assert("mount-point"@.len() != "php-script"@.len());
    }
    assert(n != "apple-script"@) by {
        assert("mount-point"@.len() != "apple-script"@.len());
    }
    assert(n != "assembly-source"@) by {
        assert("mount-point"@.len() != "assembly-source"@.len());
    }
    assert(n != "data"@) by {
        assert("mount-point"@.len() != "data"@.len());
    }
    assert(n != "directory"@) by {
        assert("mount-point"@.len() != "directory"@.len());
    }
    assert(n != "folder"@) by {
        assert("mount-point"@.len() != "folder"@.len());
    }
    assert(n != "symlink"@) by {
        assert("mount-point"@.len() != "symlink"@.len());
    }
    assert(n != "executable"@) by {
        assert("mount-point"@.len() != "executable"@.len());
    }
    assert(n != "unix-executable"@) by {
        assert("mount-point"@.len() != "unix-executable"@.len());
    }
    assert(n != "app-bundle"@) by {
        assert("mount-point"@.len() != "app-bundle"@.len());
    }
    assert(n != "framework"@) by {
        assert("mount-point"@.len() != "framework"@.len());
    }
    assert(n != "disk-image"@) by {
        assert("mount-point"@.len() != "disk-image"@.len());
    }
    assert(n != "volume"@) by {
        assert("mount-point"@.len() != "volume"@.len());
    }
    assert(parse_spec(n) == Some(SuperType::MountPoint));
}

proof fn lemma_display_parse_aliasfile()
    ensures
        parse_spec(normalized(name_spec(SuperType::AliasFile))) == Some(SuperType::AliasFile),
{
    reveal_strlit("alias-file");
    reveal_strlit("text");
    reveal_strlit("plain-text");
    reveal_strlit("csv");
    reveal_strlit("json");
    reveal_strlit("xml");
    reveal_strlit("yaml");
    reveal_strlit("html");
    reveal_strlit("markdown");
    reveal_strlit("rtf");
    reveal_strlit("image");
    reveal_strlit("raw-image");
    reveal_strlit("png");
    reveal_strlit("jpeg");
    reveal_strlit("gif");
    reveal_strlit("tiff");
    reveal_strlit("svg");
    reveal_strlit("webp");
    reveal_strlit("heic");
    reveal_strlit("heif");
    reveal_strlit("bmp");
    reveal_strlit("audio");
    reveal_strlit("mp3");
    reveal_strlit("wav");
    reveal_strlit("aiff");
    reveal_strlit("midi");
    reveal_strlit("mp4-audio");
    reveal_strlit("apple-protected-mp4-audio");
    reveal_strlit("flac");
    reveal_strlit("ogg-audio");
    reveal_strlit("ac3-audio");
    reveal_strlit("aac-audio");
    reveal_strlit("video");
    reveal_strlit("mpeg2-transport-stream");
    reveal_strlit("movie");
    reveal_strlit("quicktime-movie");
    reveal_strlit("mp4-movie");
    reveal_strlit("apple-protected-mp4-video");
    reveal_strlit("mpeg");
    reveal_strlit("mpeg2-video");
    reveal_strlit("avi");
    reveal_strlit("dv-movie");
    reveal_strlit("real-media");
    reveal_strlit("real-audio");
    reveal_strlit("webm");
    reveal_strlit("matroska");
    reveal_strlit("m3u-playlist");
    reveal_strlit("archive");
    reveal_strlit("zip");
    reveal_strlit("gzip");
    reveal_strlit("tar");
    reveal_strlit("bz2");
    reveal_strlit("apple-archive");
    reveal_strlit("sourcecode");
    reveal_strlit("c-source");
    reveal_strlit("c-header");
    reveal_strlit("cpp-source");
    reveal_strlit("cpp-header");
    reveal_strlit("objc-source");
    reveal_strlit("objc-plus-plus-source");
    reveal_strlit("swift-source");
    reveal_strlit("shell");
    reveal_strlit("makefile");
    reveal_strlit("javascript");
    reveal_strlit("python-script");
    reveal_strlit("ruby-script");
    reveal_strlit("perl-script");
    reveal_strlit("php-script");
    reveal_strlit("apple-script");
    reveal_strlit("assembly-source");
    reveal_strlit("data");
    reveal_strlit("directory");
    reveal_strlit("folder");
    reveal_strlit("symlink");
    reveal_strlit("executable");
    reveal_strlit("unix-executable");
    reveal_strlit("app-bundle");
    reveal_strlit("framework");
    reveal_strlit("disk-image");
    reveal_strlit("volume");
    reveal_strlit("mount-point");
    assert(normalized(name_spec(SuperType::AliasFile)) =~= "alias-file"@);
    let n = normalized(name_spec(SuperType::AliasFile));
    assert(n != "text"@) by {
        assert("alias-file"@.len() != "text"@.len());
    }
    assert(n != "plain-text"@) by {
        assert("alias-file"@[0] != "plain-text"@[0]);
    }
    assert(n != "csv"@) by {
        assert("alias-file"@.len() != "csv"@.len());
    }
    assert(n != "json"@) by {
        assert("alias-file"@.len() != "json"@.len());
    }
    assert(n != "xml"@) by {
        assert("alias-file"@.len() != "xml"@.len());
    }
    assert(n != "yaml"@) by {
        assert("alias-file"@.len() != "yaml"@.len());
    }
    assert(n != "html"@) by {
        assert("alias-file"@.len() != "html"@.len());
    }
    assert(n != "markdown"@) by {
        assert("alias-file"@.len() != "markdown"@.len());
    }
    assert(n != "rtf"@) by {
        assert("alias-file"@.len() != "rtf"@.len());
    }
    assert(n != "image"@) by {
        assert("alias-file"@.len() != "image"@.len());
    }
    assert(n != "raw-image"@) by {
        assert("alias-file"@.len() != "raw-image"@.len());
    }
    assert(n != "png"@) by {
        assert("alias-file"@.len() != "png"@.len());
    }
    assert(n != "jpeg"@) by {
        assert("alias-file"@.len() != "jpeg"@.len());
    }
    assert(n != "gif"@) by {
        assert("alias-file"@.len() != "gif"@.len());
    }
    assert(n != "tiff"@) by {
        assert("alias-file"@.len() != "tiff"@.len());
    }
    assert(n != "svg"@) by {
        assert("alias-file"@.len() != "svg"@.len());
    }
    assert(n != "webp"@) by {
        assert("alias-file"@.len() != "webp"@.len());
    }
    assert(n != "heic"@) by {
        assert("alias-file"@.len() != "heic"@.len());
    }
    assert(n != "heif"@) by {
        assert("alias-file"@.len() != "heif"@.len());
    }
    assert(n != "bmp"@) by {
        assert("alias-file"@.len() != "bmp"@.len());
    }
    assert(n != "audio"@) by {
        assert("alias-file"@.len() != "audio"@.len());
    }
    assert(n != "mp3"@) by {
        assert("alias-file"@.len() != "mp3"@.len());
    }
    assert(n != "wav"@) by {
        assert("alias-file"@.len() != "wav"@.len());
    }
    assert(n != "aiff"@) by {
        assert("alias-file"@.len() != "aiff"@.len());
    }
    assert(n != "midi"@) by {
        assert("alias-file"@.len() != "midi"@.len());
    }
    assert(n != "mp4-audio"@) by {
        assert("alias-file"@.len() != "mp4-audio"@.len());
    }
    assert(n != "apple-protected-mp4-audio"@) by {
        assert("alias-file"@.len() != "apple-protected-mp4-audio"@.len());
    }
    assert(n != "flac"@) by {
        assert("alias-file"@.len() != "flac"@.len());
    }
    assert(n != "ogg-audio"@) by {
        assert("alias-file"@.len() != "ogg-audio"@.len());
    }
    assert(n != "ac3-audio"@) by {
        assert("alias-file"@.len() != "ac3-audio"@.len());
    }
    assert(n != "aac-audio"@) by {
        assert("alias-file"@.len() != "aac-audio"@.len());
    }
    assert(n != "video"@) by {
        assert("alias-file"@.len() != "video"@.len());
    }
    assert(n != "mpeg2-transport-stream"@) by {
        assert("alias-file"@.len() != "mpeg2-transport-stream"@.len());
    }
    assert(n != "movie"@) by {
        assert("alias-file"@.len() != "movie"@.len());
    }
    assert(n != "quicktime-movie"@) by {
        assert("alias-file"@.len() != "quicktime-movie"@.len());
    }
    assert(n != "mp4-movie"@) by {
        assert("alias-file"@.len() != "mp4-movie"@.len());
    }
    assert(n != "apple-protected-mp4-video"@) by {
        assert("alias-file"@.len() != "apple-protected-mp4-video"@.len());
    }
    assert(n != "mpeg"@) by {
        assert("alias-file"@.len() != "mpeg"@.len());
    }
    assert(n != "mpeg2-video"@) by {
        assert("alias-file"@.len() != "mpeg2-video"@.len());
    }
    assert(n != "avi"@) by {
        assert("alias-file"@.len() != "avi"@.len());
    }
    assert(n != "dv-movie"@) by {
        assert("alias-file"@.len() != "dv-movie"@.len());
    }
    assert(n != "real-media"@) by {
        assert("alias-file"@[0] != "real-media"@[0]);
    }
    assert(n != "real-audio"@) by {
        assert("alias-file"@[0] != "real-audio"@[0]);
    }
    assert(n != "webm"@) by {
        assert("alias-file"@.len() != "webm"@.len());
    }
    assert(n != "matroska"@) by {
        assert("alias-file"@.len() != "matroska"@.len());
    }
    assert(n != "m3u-playlist"@) by {
        assert("alias-file"@.len() != "m3u-playlist"@.len());
    }
    assert(n != "archive"@) by {
        assert("alias-file"@.len() != "archive"@.len());
    }
    assert(n != "zip"@) by {
        assert("alias-file"@.len() != "zip"@.len());
    }
    assert(n != "gzip"@) by {
        assert("alias-file"@.len() != "gzip"@.len());
    }
    assert(n != "tar"@) by {
        assert("alias-file"@.len() != "tar"@.len());
    }
    assert(n != "bz2"@) by {
        assert("alias-file"@.len() != "bz2"@.len());
    }
    assert(n != "apple-archive"@) by {
        assert("alias-file"@.len() != "apple-archive"@.len());
    }
    assert(n != "sourcecode"@) by {
        assert("alias-file"@[0] != "sourcecode"@[0]);
    }
    assert(n != "c-source"@) by {
        assert("alias-file"@.len() != "c-source"@.len());
    }
    assert(n != "c-header"@) by {
        assert("alias-file"@.len() != "c-header"@.len());
    }
    assert(n != "cpp-source"@) by {
        assert("alias-file"@[0] != "cpp-source"@[0]);
    }
    assert(n != "cpp-header"@) by {
        assert("alias-file"@[0] != "cpp-header"@[0]);
    }
    assert(n != "objc-source"@) by {
        assert("alias-file"@.len() != "objc-source"@.len());
    }
    assert(n != "objc-plus-plus-source"@) by {
        assert("alias-file"@.len() != "objc-plus-plus-source"@.len());
    }
    assert(n != "swift-source"@) by {
        assert("alias-file"@.len() != "swift-source"@.len());
    }
    assert(n != "shell"@) by {
        assert("alias-file"@.len() != "shell"@.len());
    }
    assert(n != "makefile"@) by {
        assert("alias-file"@.len() != "makefile"@.len());
    }
    assert(n != "javascript"@) by {
        assert("alias-file"@[0] != "javascript"@[0]);
    }
    assert(n != "python-script"@) by {
        assert("alias-file"@.len() != "python-script"@.len());
    }
    assert(n != "ruby-script"@) by {
        assert("alias-file"@.len() != "ruby-script"@.len());
    }
    assert(n != "perl-script"@) by {
        assert("alias-file"@.len() != "perl-script"@.len());
    }
    assert(n != "php-script"@) by {
        assert("alias-file"@[0] != "php-script"@[0]);
    }
    assert(n != "apple-script"@) by {
        assert("alias-file"@.len() != "apple-script"@.len());
    }
    assert(n != "assembly-source"@) by {
        assert("alias-file"@.len() != "assembly-source"@.len());
    }
    assert(n != "data"@) by {
        assert("alias-file"@.len() != "data"@.len());
    }
    assert(n != "directory"@) by {
        assert("alias-file"@.len() != "directory"@.len());
    }
    assert(n != "folder"@) by {
        assert("alias-file"@.len() != "folder"@.len());
    }
    assert(n != "symlink"@) by {
        assert("alias-file"@.len() != "symlink"@.len());
    }
    assert(n != "executable"@) by {
        assert("alias-file"@[0] != "executable"@[0]);
    }
    assert(n != "unix-executable"@) by {
        assert("alias-file"@.len() != "unix-executable"@.len());
    }
    assert(n != "app-bundle"@) by {
        assert("alias-file"@[1] != "app-bundle"@[1]);
    }
    assert(n != "framework"@) by {
        assert("alias-file"@.len() != "framework"@.len());
    }
    assert(n != "disk-image"@) by {
        assert("alias-file"@[0] != "disk-image"@[0]);
    }
    assert(n != "volume"@) by {
        assert("alias-file"@.len() != "volume"@.len());
    }
    assert(n != "mount-point"@) by {
        assert("alias-file"@.len() != "mount-point"@.len());
    }
    assert(parse_spec(n) == Some(SuperType::AliasFile));
}

proof fn lemma_display_parse_threedcontent()
    ensures
        parse_spec(normalized(name_spec(SuperType::ThreeDContent))) == Some(SuperType::ThreeDContent),
{
    reveal_strlit("3d-content");
    reveal_strlit("text");
    reveal_strlit("plain-text");
    reveal_strlit("csv");
    reveal_strlit("json");
    reveal_strlit("xml");
    reveal_strlit("yaml");
    reveal_strlit("html");
    reveal_strlit("markdown");
    reveal_strlit("rtf");
    reveal_strlit("image");
    reveal_strlit("raw-image");
    reveal_strlit("png");
    reveal_strlit("jpeg");
    reveal_strlit("gif");
    reveal_strlit("tiff");
    reveal_strlit("svg");
    reveal_strlit("webp");
    reveal_strlit("heic");
    reveal_strlit("heif");
    reveal_strlit("bmp");
    reveal_strlit("audio");
    reveal_strlit("mp3");
    reveal_strlit("wav");
    reveal_strlit("aiff");
    reveal_strlit("midi");
    reveal_strlit("mp4-audio");
    reveal_strlit("apple-protected-mp4-audio");
    reveal_strlit("flac");
    reveal_strlit("ogg-audio");
    reveal_strlit("ac3-audio");
    reveal_strlit("aac-audio");
    reveal_strlit("video");
    reveal_strlit("mpeg2-transport-stream");
    reveal_strlit("movie");
    reveal_strlit("quicktime-movie");
    reveal_strlit("mp4-movie");
    reveal_strlit("apple-protected-mp4-video");
    reveal_strlit("mpeg");
    reveal_strlit("mpeg2-video");
    reveal_strlit("avi");
    reveal_strlit("dv-movie");
    reveal_strlit("real-media");
    reveal_strlit("real-audio");
    reveal_strlit("webm");
    reveal_strlit("matroska");
    reveal_strlit("m3u-playlist");
    reveal_strlit("archive");
    reveal_strlit("zip");
    reveal_strlit("gzip");
    reveal_strlit("tar");
    reveal_strlit("bz2");
    reveal_strlit("apple-archive");
    reveal_strlit("sourcecode");
    reveal_strlit("c-source");
    reveal_strlit("c-header");
    reveal_strlit("cpp-source");
    reveal_strlit("cpp-header");
    reveal_strlit("objc-source");
    reveal_strlit("objc-plus-plus-source");
    reveal_strlit("swift-source");
    reveal_strlit("shell");
    reveal_strlit("makefile");
    reveal_strlit("javascript");
    reveal_strlit("python-script");
    reveal_strlit("ruby-script");
    reveal_strlit("perl-script");
    reveal_strlit("php-script");
    reveal_strlit("apple-script");
    reveal_strlit("assembly-source");
    reveal_strlit("data");
    reveal_strlit("directory");
    reveal_strlit("folder");
    reveal_strlit("symlink");
    reveal_strlit("executable");
    reveal_strlit("unix-executable");
    reveal_strlit("app-bundle");
    reveal_strlit("framework");
    reveal_strlit("disk-image");
    reveal_strlit("volume");
    reveal_strlit("mount-point");
    reveal_strlit("alias-file");
    assert(normalized(name_spec(SuperType::ThreeDContent)) =~= "3d-content"@);
    let n = normalized(name_spec(SuperType::ThreeDContent));
    assert(n != "text"@) by {
        assert("3d-content"@.len() != "text"@.len());
    }
    assert(n != "plain-text"@) by {
        assert("3d-content"@[0] != "plain-text"@[0]);
    }
    assert(n != "csv"@) by {
        assert("3d-content"@.len() != "csv"@.len());
    }
    assert(n != "json"@) by {
        assert("3d-content"@.len() != "json"@.len());
    }
    assert(n != "xml"@) by {
        assert("3d-content"@.len() != "xml"@.len());
    }
    assert(n != "yaml"@) by {
        assert("3d-content"@.len() != "yaml"@.len());
    }
    assert(n != "html"@) by {
        assert("3d-content"@.len() != "html"@.len());
    }
    assert(n != "markdown"@) by {
        assert("3d-content"@.len() != "markdown"@.len());
    }
    assert(n != "rtf"@) by {
        assert("3d-content"@.len() != "rtf"@.len());
    }
    assert(n != "image"@) by {
        assert("3d-content"@.len() != "image"@.len());
    }
    assert(n != "raw-image"@) by {
        assert("3d-content"@.len() != "raw-image"@.len());
    }
    assert(n != "png"@) by {
        assert("3d-content"@.len() != "png"@.len());
    }
    assert(n != "jpeg"@) by {
        assert("3d-content"@.len() != "jpeg"@.len());
    }
    assert(n != "gif"@) by {
        assert("3d-content"@.len() != "gif"@.len());
    }
    assert(n != "tiff"@) by {
        assert("3d-content"@.len() != "tiff"@.len());
    }
    assert(n != "svg"@) by {
        assert("3d-content"@.len() != "svg"@.len());
    }
    assert(n != "webp"@) by {
        assert("3d-content"@.len() != "webp"@.len());
    }
    assert(n != "heic"@) by {
        assert("3d-content"@.len() != "heic"@.len());
    }
    assert(n != "heif"@) by {
        assert("3d-content"@.len() != "heif"@.len());
    }
    assert(n != "bmp"@) by {
        assert("3d-content"@.len() != "bmp"@.len());
    }
    assert(n != "audio"@) by {
        assert("3d-content"@.len() != "audio"@.len());
    }
    assert(n != "mp3"@) by {
        assert("3d-content"@.len() != "mp3"@.len());
    }
    assert(n != "wav"@) by {
        assert("3d-content"@.len() != "wav"@.len());
    }
    assert(n != "aiff"@) by {
        assert("3d-content"@.len() != "aiff"@.len());
    }
    assert(n != "midi"@) by {
        assert("3d-content"@.len() != "midi"@.len());
    }
    assert(n != "mp4-audio"@) by {
        assert("3d-content"@.len() != "mp4-audio"@.len());
    }
    assert(n != "apple-protected-mp4-audio"@) by {
        assert("3d-content"@.len() != "apple-protected-mp4-audio"@.len());
    }
    assert(n != "flac"@) by {
        assert("3d-content"@.len() != "flac"@.len());
    }
    assert(n != "ogg-audio"@) by {
        assert("3d-content"@.len() != "ogg-audio"@.len());
    }
    assert(n != "ac3-audio"@) by {
        assert("3d-content"@.len() != "ac3-audio"@.len());
    }
    assert(n != "aac-audio"@) by {
        assert("3d-content"@.len() != "aac-audio"@.len());
    }
    assert(n != "video"@) by {
        assert("3d-content"@.len() != "video"@.len());
    }
    assert(n != "mpeg2-transport-stream"@) by {
        assert("3d-content"@.len() != "mpeg2-transport-stream"@.len());
    }
    assert(n != "movie"@) by {
        assert("3d-content"@.len() != "movie"@.len());
    }
    assert(n != "quicktime-movie"@) by {
        assert("3d-content"@.len() != "quicktime-movie"@.len());
    }
    assert(n != "mp4-movie"@) by {
        assert("3d-content"@.len() != "mp4-movie"@.len());
    }
    assert(n != "apple-protected-mp4-video"@) by {
        assert("3d-content"@.len() != "apple-protected-mp4-video"@.len());
    }
    assert(n != "mpeg"@) by {
        assert("3d-content"@.len() != "mpeg"@.len());
    }
    assert(n != "mpeg2-video"@) by {
        assert("3d-content"@.len() != "mpeg2-video"@.len());
    }
    assert(n != "avi"@) by {
        assert("3d-content"@.len() != "avi"@.len());
    }
    assert(n != "dv-movie"@) by {
        assert("3d-content"@.len() != "dv-movie"@.len());
    }
    assert(n != "real-media"@) by {
        assert("3d-content"@[0] != "real-media"@[0]);
    }
    assert(n != "real-audio"@) by {
        assert("3d-content"@[0] != "real-audio"@[0]);
    }
    assert(n != "webm"@) by {
        assert("3d-content"@.len() != "webm"@.len());
    }
    assert(n != "matroska"@) by {
        assert("3d-content"@.len() != "matroska"@.len());
    }
    assert(n != "m3u-playlist"@) by {
        assert("3d-content"@.len() != "m3u-playlist"@.len());
    }
    assert(n != "archive"@) by {
        assert("3d-content"@.len() != "archive"@.len());
    }
    assert(n != "zip"@) by {
        assert("3d-content"@.len() != "zip"@.len());
    }
    assert(n != "gzip"@) by {
        assert("3d-content"@.len() != "gzip"@.len());
    }
    assert(n != "tar"@) by {
        assert("3d-content"@.len() != "tar"@.len());
    }
    assert(n != "bz2"@) by {
        assert("3d-content"@.len() != "bz2"@.len());
    }
    assert(n != "apple-archive"@) by {
        assert("3d-content"@.len() != "apple-archive"@.len());
    }
    assert(n != "sourcecode"@) by {
        assert("3d-content"@[0] != "sourcecode"@[0]);
    }
    assert(n != "c-source"@) by {
        assert("3d-content"@.len() != "c-source"@.len());
    }
    assert(n != "c-header"@) by {
        assert("3d-content"@.len() != "c-header"@.len());
    }
    assert(n != "cpp-source"@) by {
        assert("3d-content"@[0] != "cpp-source"@[0]);
    }
    assert(n != "cpp-header"@) by {
        assert("3d-content"@[0] != "cpp-header"@[0]);
    }
    assert(n != "objc-source"@) by {
        assert("3d-content"@.len() != "objc-source"@.len());
    }
    assert(n != "objc-plus-plus-source"@) by {
        assert("3d-content"@.len() != "objc-plus-plus-source"@.len());
    }
    assert(n != "swift-source"@) by {
        assert("3d-content"@.len() != "swift-source"@.len());
    }
    assert(n != "shell"@) by {
        assert("3d-content"@.len() != "shell"@.len());
    }
    assert(n != "makefile"@) by {
        assert("3d-content"@.len() != "makefile"@.len());
    }
    assert(n != "javascript"@) by {
        assert("3d-content"@[0] != "javascript"@[0]);
    }
    assert(n != "python-script"@) by {
        assert("3d-content"@.len() != "python-script"@.len());
    }
    assert(n != "ruby-script"@) by {
        assert("3d-content"@.len() != "ruby-script"@.len());
    }
    assert(n != "perl-script"@) by {
        assert("3d-content"@.len() != "perl-script"@.len());
    }
    assert(n != "php-script"@) by {
        assert("3d-content"@[0] != "php-script"@[0]);
    }
    assert(n != "apple-script"@) by {
        assert("3d-content"@.len() != "apple-script"@.len());
    }
    assert(n != "assembly-source"@) by {
        assert("3d-content"@.len() != "assembly-source"@.len());
    }
    assert(n != "data"@) by {
        assert("3d-content"@.len() != "data"@.len());
    }
    assert(n != "directory"@) by {
        assert("3d-content"@.len() != "directory"@.len());
    }
    assert(n != "folder"@) by {
        assert("3d-content"@.len() != "folder"@.len());
    }
    assert(n != "symlink"@) by {
        assert("3d-content"@.len() != "symlink"@.len());
    }
    assert(n != "executable"@) by {
        assert("3d-content"@[0] != "executable"@[0]);
    }
    assert(n != "unix-executable"@) by {
        assert("3d-content"@.len() != "unix-executable"@.len());
    }
    assert(n != "app-bundle"@) by {
        assert("3d-content"@[0] != "app-bundle"@[0]);
    }
    assert(n != "framework"@) by {
        assert("3d-content"@.len() != "framework"@.len());
    }
    assert(n != "disk-image"@) by {
        assert("3d-content"@[0] != "disk-image"@[0]);
    }
    assert(n != "volume"@) by {
        assert("3d-content"@.len() != "volume"@.len());
    }
    assert(n != "mount-point"@) by {
        assert("3d-content"@.len() != "mount-point"@.len());
    }
    assert(n != "alias-file"@) by {
        assert("3d-content"@[0] != "alias-file"@[0]);
    }
    assert(parse_spec(n) == Some(SuperType::ThreeDContent));
}

proof fn lemma_display_parse_usd()
    ensures
        parse_spec(normalized(name_spec(SuperType::Usd))) == Some(SuperType::Usd),
{
    reveal_strlit("usd");
    reveal_strlit("text");
    reveal_strlit("plain-text");
    reveal_strlit("csv");
    reveal_strlit("json");
    reveal_strlit("xml");
    reveal_strlit("yaml");
    reveal_strlit("html");
    reveal_strlit("markdown");
    reveal_strlit("rtf");
    reveal_strlit("image");
    reveal_strlit("raw-image");
    reveal_strlit("png");
    reveal_strlit("jpeg");
    reveal_strlit("gif");
    reveal_strlit("tiff");
    reveal_strlit("svg");
    reveal_strlit("webp");
    reveal_strlit("heic");
    reveal_strlit("heif");
    reveal_strlit("bmp");
    reveal_strlit("audio");
    reveal_strlit("mp3");
    reveal_strlit("wav");
    reveal_strlit("aiff");
    reveal_strlit("midi");
    reveal_strlit("mp4-audio");
    reveal_strlit("apple-protected-mp4-audio");
    reveal_strlit("flac");
    reveal_strlit("ogg-audio");
    reveal_strlit("ac3-audio");
    reveal_strlit("aac-audio");
    reveal_strlit("video");
    reveal_strlit("mpeg2-transport-stream");
    reveal_strlit("movie");
    reveal_strlit("quicktime-movie");
    reveal_strlit("mp4-movie");
    reveal_strlit("apple-protected-mp4-video");
    reveal_strlit("mpeg");
    reveal_strlit("mpeg2-video");
    reveal_strlit("avi");
    reveal_strlit("dv-movie");
    reveal_strlit("real-media");
    reveal_strlit("real-audio");
    reveal_strlit("webm");
    reveal_strlit("matroska");
    reveal_strlit("m3u-playlist");
    reveal_strlit("archive");
    reveal_strlit("zip");
    reveal_strlit("gzip");
    reveal_strlit("tar");
    reveal_strlit("bz2");
    reveal_strlit("apple-archive");
    reveal_strlit("sourcecode");
    reveal_strlit("c-source");
    reveal_strlit("c-header");
    reveal_strlit("cpp-source");
    reveal_strlit("cpp-header");
    reveal_strlit("objc-source");
    reveal_strlit("objc-plus-plus-source");
    reveal_strlit("swift-source");
    reveal_strlit("shell");
    reveal_strlit("makefile");
    reveal_strlit("javascript");
    reveal_strlit("python-script");
    reveal_strlit("ruby-script");
    reveal_strlit("perl-script");
    reveal_strlit("php-script");
    reveal_strlit("apple-script");
    reveal_strlit("assembly-source");
    reveal_strlit("data");
    reveal_strlit("directory");
    reveal_strlit("folder");
    reveal_strlit("symlink");
    reveal_strlit("executable");
    reveal_strlit("unix-executable");
    reveal_strlit("app-bundle");
    reveal_strlit("framework");
    reveal_strlit("disk-image");
    reveal_strlit("volume");
    reveal_strlit("mount-point");
    reveal_strlit("alias-file");
    reveal_strlit("3d-content");
    assert(normalized(name_spec(SuperType::Usd)) =~= "usd"@);
    let n = normalized(name_spec(SuperType::Usd));
    assert(n != "text"@) by {
        assert("usd"@.len() != "text"@.len());
    }
    assert(n != "plain-text"@) by {
        assert("usd"@.len() != "plain-text"@.len());
    }
    assert(n != "csv"@) by {
        assert("usd"@[0] != "csv"@[0]);
    }
    assert(n != "json"@) by {
        assert("usd"@.len() != "json"@.len());
    }
    assert(n != "xml"@) by {
        assert("usd"@[0] != "xml"@[0]);
    }
    assert(n != "yaml"@) by {
        assert("usd"@.len() != "yaml"@.len());
    }
    assert(n != "html"@) by {
        assert("usd"@.len() != "html"@.len());
    }
    assert(n != "markdown"@) by {
        assert("usd"@.len() != "markdown"@.len());
    }
    assert(n != "rtf"@) by {
        assert("usd"@[0] != "rtf"@[0]);
    }
    assert(n != "image"@) by {
        assert("usd"@.len() != "image"@.len());
    }
    assert(n != "raw-image"@) by {
        assert("usd"@.len() != "raw-image"@.len());
    }
    assert(n != "png"@) by {
        assert("usd"@[0] != "png"@[0]);
    }
    assert(n != "jpeg"@) by {
        assert("usd"@.len() != "jpeg"@.len());
    }
    assert(n != "gif"@) by {
        assert("usd"@[0] != "gif"@[0]);
    }
    assert(n != "tiff"@) by {
        assert("usd"@.len() != "tiff"@.len());
    }
    assert(n != "svg"@) by {
        assert("usd"@[0] != "svg"@[0]);
    }
    assert(n != "webp"@) by {
        assert("usd"@.len() != "webp"@.len());
    }
    assert(n != "heic"@) by {
        assert("usd"@.len() != "heic"@.len());
    }
    assert(n != "heif"@) by {
        assert("usd"@.len() != "heif"@.len());
    }
    assert(n != "bmp"@) by {
        assert("usd"@[0] != "bmp"@[0]);
    }
    assert(n != "audio"@) by {
        assert("usd"@.len() != "audio"@.len());
    }
    assert(n != "mp3"@) by {
        assert("usd"@[0] != "mp3"@[0]);
    }
    assert(n != "wav"@) by {
        assert("usd"@[0] != "wav"@[0]);
    }
    assert(n != "aiff"@) by {
        assert("usd"@.len() != "aiff"@.len());
    }
    assert(n != "midi"@) by {
        assert("usd"@.len() != "midi"@.len());
    }
    assert(n != "mp4-audio"@) by {
        assert("usd"@.len() != "mp4-audio"@.len());
    }
    assert(n != "apple-protected-mp4-audio"@) by {
        assert("usd"@.len() != "apple-protected-mp4-audio"@.len());
    }
    assert(n != "flac"@) by {
        assert("usd"@.len() != "flac"@.len());
    }
    assert(n != "ogg-audio"@) by {
        assert("usd"@.len() != "ogg-audio"@.len());
    }
    assert(n != "ac3-audio"@) by {
        assert("usd"@.len() != "ac3-audio"@.len());
    }
    assert(n != "aac-audio"@) by {
        assert("usd"@.len() != "aac-audio"@.len());
    }
    assert(n != "video"@) by {
        assert("usd"@.len() != "video"@.len());
    }
    assert(n != "mpeg2-transport-stream"@) by {
        assert("usd"@.len() != "mpeg2-transport-stream"@.len());
    }
    assert(n != "movie"@) by {
        assert("usd"@.len() != "movie"@.len());
    }
    assert(n != "quicktime-movie"@) by {
        assert("usd"@.len() != "quicktime-movie"@.len());
    }
    assert(n != "mp4-movie"@) by {
        assert("usd"@.len() != "mp4-movie"@.len());
    }
    assert(n != "apple-protected-mp4-video"@) by {
        assert("usd"@.len() != "apple-protected-mp4-video"@.len());
    }
    assert(n != "mpeg"@) by {
        assert("usd"@.len() != "mpeg"@.len());
    }
    assert(n != "mpeg2-video"@) by {
        assert("usd"@.len() != "mpeg2-video"@.len());
    }
    assert(n != "avi"@) by {
        assert("usd"@[0] != "avi"@[0]);
    }
    assert(n != "dv-movie"@) by {
        assert("usd"@.len() != "dv-movie"@.len());
    }
    assert(n != "real-media"@) by {
        assert("usd"@.len() != "real-media"@.len());
    }
    assert(n != "real-audio"@) by {
        assert("usd"@.len() != "real-audio"@.len());
    }
    assert(n != "webm"@) by {
        assert("usd"@.len() != "webm"@.len());
    }
    assert(n != "matroska"@) by {
        assert("usd"@.len() != "matroska"@.len());
    }
    assert(n != "m3u-playlist"@) by {
        assert("usd"@.len() != "m3u-playlist"@.len());
    }
    assert(n != "archive"@) by {
        assert("usd"@.len() != "archive"@.len());
    }
    assert(n != "zip"@) by {
        assert("usd"@[0] != "zip"@[0]);
    }
    assert(n != "gzip"@) by {
        assert("usd"@.len() != "gzip"@.len());
    }
    assert(n != "tar"@) by {
        assert("usd"@[0] != "tar"@[0]);
    }
    assert(n != "bz2"@) by {
        assert("usd"@[0] != "bz2"@[0]);
    }
    assert(n != "apple-archive"@) by {
        assert("usd"@.len() != "apple-archive"@.len());
    }
    assert(n != "sourcecode"@) by {
        assert("usd"@.len() != "sourcecode"@.len());
    }
    assert(n != "c-source"@) by {
        assert("usd"@.len() != "c-source"@.len());
    }
    assert(n != "c-header"@) by {
        assert("usd"@.len() != "c-header"@.len());
    }
    assert(n != "cpp-source"@) by {
        assert("usd"@.len() != "cpp-source"@.len());
    }
    assert(n != "cpp-header"@) by {
        assert("usd"@.len() != "cpp-header"@.len());
    }
    assert(n != "objc-source"@) by {
        assert("usd"@.len() != "objc-source"@.len());
    }
    assert(n != "objc-plus-plus-source"@) by {
        assert("usd"@.len() != "objc-plus-plus-source"@.len());
    }
    assert(n != "swift-source"@) by {
        assert("usd"@.len() != "swift-source"@.len());
    }
    assert(n != "shell"@) by {
        assert("usd"@.len() != "shell"@.len());
    }
    assert(n != "makefile"@) by {
        assert("usd"@.len() != "makefile"@.len());
    }
    assert(n != "javascript"@) by {
        assert("usd"@.len() != "javascript"@.len());
    }
    assert(n != "python-script"@) by {
        assert("usd"@.len() != "python-script"@.len());
    }
    assert(n != "ruby-script"@) by {
        assert("usd"@.len() != "ruby-script"@.len());
    }
    assert(n != "perl-script"@) by {
        assert("usd"@.len() != "perl-script"@.len());
    }
    assert(n != "php-script"@) by {
        assert("usd"@.len() != "php-script"@.len());
    }
    assert(n != "apple-script"@) by {
        assert("usd"@.len() != "apple-script"@.len());
    }
    assert(n != "assembly-source"@) by {
        assert("usd"@.len() != "assembly-source"@.len());
    }
    assert(n != "data"@) by {
        assert("usd"@.len() != "data"@.len());
    }
    assert(n != "directory"@) by {
        assert("usd"@.len() != "directory"@.len());
    }
    assert(n != "folder"@) by {
        assert("usd"@.len() != "folder"@.len());
    }
    assert(n != "symlink"@) by {
        assert("usd"@.len() != "symlink"@.len());
    }
    assert(n != "executable"@) by {
        assert("usd"@.len() != "executable"@.len());
    }
    assert(n != "unix-executable"@) by {
        assert("usd"@.len() != "unix-executable"@.len());
    }
    assert(n != "app-bundle"@) by {
        assert("usd"@.len() != "app-bundle"@.len());
    }
    assert(n != "framework"@) by {
        assert("usd"@.len() != "framework"@.len());
    }
    assert(n != "disk-image"@) by {
        assert("usd"@.len() != "disk-image"@.len());
    }
    assert(n != "volume"@) by {
        assert("usd"@.len() != "volume"@.len());
    }
    assert(n != "mount-point"@) by {
        assert("usd"@.len() != "mount-point"@.len());
    }
    assert(n != "alias-file"@) by {
        assert("usd"@.len() != "alias-file"@.len());
    }
    assert(n != "3d-content"@) by {
        assert("usd"@.len() != "3d-content"@.len());
    }
    assert(parse_spec(n) == Some(SuperType::Usd));
}

proof fn lemma_display_parse_usdz()
    ensures
        parse_spec(normalized(name_spec(SuperType::Usdz))) == Some(SuperType::Usdz),
{
    reveal_strlit("usdz");
    reveal_strlit("text");
    reveal_strlit("plain-text");
    reveal_strlit("csv");
    reveal_strlit("json");
    reveal_strlit("xml");
    reveal_strlit("yaml");
    reveal_strlit("html");
    reveal_strlit("markdown");
    reveal_strlit("rtf");
    reveal_strlit("image");
    reveal_strlit("raw-image");
    reveal_strlit("png");
    reveal_strlit("jpeg");
    reveal_strlit("gif");
    reveal_strlit("tiff");
    reveal_strlit("svg");
    reveal_strlit("webp");
    reveal_strlit("heic");
    reveal_strlit("heif");
    reveal_strlit("bmp");
    reveal_strlit("audio");
    reveal_strlit("mp3");
    reveal_strlit("wav");
    reveal_strlit("aiff");
    reveal_strlit("midi");
    reveal_strlit("mp4-audio");
    reveal_strlit("apple-protected-mp4-audio");
    reveal_strlit("flac");
    reveal_strlit("ogg-audio");
    reveal_strlit("ac3-audio");
    reveal_strlit("aac-audio");
    reveal_strlit("video");
    reveal_strlit("mpeg2-transport-stream");
    reveal_strlit("movie");
    reveal_strlit("quicktime-movie");
    reveal_strlit("mp4-movie");
    reveal_strlit("apple-protected-mp4-video");
    reveal_strlit("mpeg");
    reveal_strlit("mpeg2-video");
    reveal_strlit("avi");
    reveal_strlit("dv-movie");
    reveal_strlit("real-media");
    reveal_strlit("real-audio");
    reveal_strlit("webm");
    reveal_strlit("matroska");
    reveal_strlit("m3u-playlist");
    reveal_strlit("archive");
    reveal_strlit("zip");
    reveal_strlit("gzip");
    reveal_strlit("tar");
    reveal_strlit("bz2");
    reveal_strlit("apple-archive");
    reveal_strlit("sourcecode");
    reveal_strlit("c-source");
    reveal_strlit("c-header");
    reveal_strlit("cpp-source");
    reveal_strlit("cpp-header");
    reveal_strlit("objc-source");
    reveal_strlit("objc-plus-plus-source");
    reveal_strlit("swift-source");
    reveal_strlit("shell");
    reveal_strlit("makefile");
    reveal_strlit("javascript");
    reveal_strlit("python-script");
    reveal_strlit("ruby-script");
    reveal_strlit("perl-script");
    reveal_strlit("php-script");
    reveal_strlit("apple-script");
    reveal_strlit("assembly-source");
    reveal_strlit("data");
    reveal_strlit("directory");
    reveal_strlit("folder");
    reveal_strlit("symlink");
    reveal_strlit("executable");
    reveal_strlit("unix-executable");
    reveal_strlit("app-bundle");
    reveal_strlit("framework");
    reveal_strlit("disk-image");
    reveal_strlit("volume");
    reveal_strlit("mount-point");
    reveal_strlit("alias-file");
    reveal_strlit("3d-content");
    reveal_strlit("usd");
    assert(normalized(name_spec(SuperType::Usdz)) =~= "usdz"@);
    let n = normalized(name_spec(SuperType::Usdz));
    assert(n != "text"@) by {
        assert("usdz"@[0] != "text"@[0]);
    }
    assert(n != "plain-text"@) by {
        assert("usdz"@.len() != "plain-text"@.len());
    }
    assert(n != "csv"@) by {
        assert("usdz"@.len() != "csv"@.len());
    }
    assert(n != "json"@) by {
        assert("usdz"@[0] != "json"@[0]);
    }
    assert(n != "xml"@) by {
        assert("usdz"@.len() != "xml"@.len());
    }
    assert(n != "yaml"@) by {
        assert("usdz"@[0] != "yaml"@[0]);
    }
    assert(n != "html"@) by {
        assert("usdz"@[0] != "html"@[0]);
    }
    assert(n != "markdown"@) by {
        assert("usdz"@.len() != "markdown"@.len());
    }
    assert(n != "rtf"@) by {
        assert("usdz"@.len() != "rtf"@.len());
    }
    assert(n != "image"@) by {
        assert("usdz"@.len() != "image"@.len());
    }
    assert(n != "raw-image"@) by {
        assert("usdz"@.len() != "raw-image"@.len());
    }
    assert(n != "png"@) by {
        assert("usdz"@.len() != "png"@.len());
    }
    assert(n != "jpeg"@) by {
        assert("usdz"@[0] != "jpeg"@[0]);
    }
    assert(n != "gif"@) by {
        assert("usdz"@.len() != "gif"@.len());
    }
    assert(n != "tiff"@) by {
        assert("usdz"@[0] != "tiff"@[0]);
    }
    assert(n != "svg"@) by {
        assert("usdz"@.len() != "svg"@.len());
    }
    assert(n != "webp"@) by {
        assert("usdz"@[0] != "webp"@[0]);
    }
    assert(n != "heic"@) by {
        assert("usdz"@[0] != "heic"@[0]);
    }
    assert(n != "heif"@) by {
        assert("usdz"@[0] != "heif"@[0]);
    }
    assert(n != "bmp"@) by {
        assert("usdz"@.len() != "bmp"@.len());
    }
    assert(n != "audio"@) by {
        assert("usdz"@.len() != "audio"@.len());
    }
    assert(n != "mp3"@) by {
        assert("usdz"@.len() != "mp3"@.len());
    }
    assert(n != "wav"@) by {
        assert("usdz"@.len() != "wav"@.len());
    }
    assert(n != "aiff"@) by {
        assert("usdz"@[0] != "aiff"@[0]);
    }
    assert(n != "midi"@) by {
        assert("usdz"@[0] != "midi"@[0]);
    }
    assert(n != "mp4-audio"@) by {
        assert("usdz"@.len() != "mp4-audio"@.len());
    }
    assert(n != "apple-protected-mp4-audio"@) by {
        assert("usdz"@.len() != "apple-protected-mp4-audio"@.len());
    }
    assert(n != "flac"@) by {
        assert("usdz"@[0] != "flac"@[0]);
    }
    assert(n != "ogg-audio"@) by {
        assert("usdz"@.len() != "ogg-audio"@.len());
    }
    assert(n != "ac3-audio"@) by {
        assert("usdz"@.len() != "ac3-audio"@.len());
    }
    assert(n != "aac-audio"@) by {
        assert("usdz"@.len() != "aac-audio"@.len());
    }
    assert(n != "video"@) by {
        assert("usdz"@.len() != "video"@.len());
    }
    assert(n != "mpeg2-transport-stream"@) by {
        assert("usdz"@.len() != "mpeg2-transport-stream"@.len());
    }
    assert(n != "movie"@) by {
        assert("usdz"@.len() != "movie"@.len());
    }
    assert(n != "quicktime-movie"@) by {
        assert("usdz"@.len() != "quicktime-movie"@.len());
    }
    assert(n != "mp4-movie"@) by {
        assert("usdz"@.len() != "mp4-movie"@.len());
    }
    assert(n != "apple-protected-mp4-video"@) by {
        assert("usdz"@.len() != "apple-protected-mp4-video"@.len());
    }
    assert(n != "mpeg"@) by {
        assert("usdz"@[0] != "mpeg"@[0]);
    }
    assert(n != "mpeg2-video"@) by {
        assert("usdz"@.len() != "mpeg2-video"@.len());
    }
    assert(n != "avi"@) by {
        assert("usdz"@.len() != "avi"@.len());
    }
    assert(n != "dv-movie"@) by {
        assert("usdz"@.len() != "dv-movie"@.len());
    }
    assert(n != "real-media"@) by {
        assert("usdz"@.len() != "real-media"@.len());
    }
    assert(n != "real-audio"@) by {
        assert("usdz"@.len() != "real-audio"@.len());
    }
    assert(n != "webm"@) by {
        assert("usdz"@[0] != "webm"@[0]);
    }
    assert(n != "matroska"@) by {
        assert("usdz"@.len() != "matroska"@.len());
    }
    assert(n != "m3u-playlist"@) by {
        assert("usdz"@.len() != "m3u-playlist"@.len());
    }
    assert(n != "archive"@) by {
        assert("usdz"@.len() != "archive"@.len());
    }
    assert(n != "zip"@) by {
        assert("usdz"@.len() != "zip"@.len());
    }
    assert(n != "gzip"@) by {
        assert("usdz"@[0] != "gzip"@[0]);
    }
    assert(n != "tar"@) by {
        assert("usdz"@.len() != "tar"@.len());
    }
    assert(n != "bz2"@) by {
        assert("usdz"@.len() != "bz2"@.len());
    }
    assert(n != "apple-archive"@) by {
        assert("usdz"@.len() != "apple-archive"@.len());
    }
    assert(n != "sourcecode"@) by {
        assert("usdz"@.len() != "sourcecode"@.len());
    }
    assert(n != "c-source"@) by {
        assert("usdz"@.len() != "c-source"@.len());
    }
    assert(n != "c-header"@) by {
        assert("usdz"@.len() != "c-header"@.len());
    }
    assert(n != "cpp-source"@) by {
        assert("usdz"@.len() != "cpp-source"@.len());
    }
    assert(n != "cpp-header"@) by {
        assert("usdz"@.len() != "cpp-header"@.len());
    }
    assert(n != "objc-source"@) by {
        assert("usdz"@.len() != "objc-source"@.len());
    }
    assert(n != "objc-plus-plus-source"@) by {
        assert("usdz"@.len() != "objc-plus-plus-source"@.len());
    }
    assert(n != "swift-source"@) by {
        assert("usdz"@.len() != "swift-source"@.len());
    }
    assert(n != "shell"@) by {
        assert("usdz"@.len() != "shell"@.len());
    }
    assert(n != "makefile"@) by {
        assert("usdz"@.len() != "makefile"@.len());
    }
    assert(n != "javascript"@) by {
        assert("usdz"@.len() != "javascript"@.len());
    }
    assert(n != "python-script"@) by {
        assert("usdz"@.len() != "python-script"@.len());
    }
    assert(n != "ruby-script"@) by {
        assert("usdz"@.len() != "ruby-script"@.len());
    }
    assert(n != "perl-script"@) by {
        assert("usdz"@.len() != "perl-script"@.len());
    }
    assert(n != "php-script"@) by {
        assert("usdz"@.len() != "php-script"@.len());
    }
    assert(n != "apple-script"@) by {
        assert("usdz"@.len() != "apple-script"@.len());
    }
    assert(n != "assembly-source"@) by {
        assert("usdz"@.len() != "assembly-source"@.len());
    }
    assert(n != "data"@) by {
        assert("usdz"@[0] != "data"@[0]);
    }
    assert(n != "directory"@) by {
        assert("usdz"@.len() != "directory"@.len());
    }
    assert(n != "folder"@) by {
        assert("usdz"@.len() != "folder"@.len());
    }
    assert(n != "symlink"@) by {
        assert("usdz"@.len() != "symlink"@.len());
    }
    assert(n != "executable"@) by {
        assert("usdz"@.len() != "executable"@.len());
    }
    assert(n != "unix-executable"@) by {
        assert("usdz"@.len() != "unix-executable"@.len());
    }
    assert(n != "app-bundle"@) by {
        assert("usdz"@.len() != "app-bundle"@.len());
    }
    assert(n != "framework"@) by {
        assert("usdz"@.len() != "framework"@.len());
    }
    assert(n != "disk-image"@) by {
        assert("usdz"@.len() != "disk-image"@.len());
    }
    assert(n != "volume"@) by {
        assert("usdz"@.len() != "volume"@.len());
    }
    assert(n != "mount-point"@) by {
        assert("usdz"@.len() != "mount-point"@.len());
    }
    assert(n != "alias-file"@) by {
        assert("usdz"@.len() != "alias-file"@.len());
    }
    assert(n != "3d-content"@) by {
        assert("usdz"@.len() != "3d-content"@.len());
    }
    assert(n != "usd"@) by {
        assert("usdz"@.len() != "usd"@.len());
    }
    assert(parse_spec(n) == Some(SuperType::Usdz));
}

proof fn lemma_display_parse_realityfile()
    ensures
        parse_spec(normalized(name_spec(SuperType::RealityFile))) == Some(SuperType::RealityFile),
{
    reveal_strlit("reality-file");
    reveal_strlit("text");
    reveal_strlit("plain-text");
    reveal_strlit("csv");
    reveal_strlit("json");
    reveal_strlit("xml");
    reveal_strlit("yaml");
    reveal_strlit("html");
    reveal_strlit("markdown");
    reveal_strlit("rtf");
    reveal_strlit("image");
    reveal_strlit("raw-image");
    reveal_strlit("png");
    reveal_strlit("jpeg");
    reveal_strlit("gif");
    reveal_strlit("tiff");
    reveal_strlit("svg");
    reveal_strlit("webp");
    reveal_strlit("heic");
    reveal_strlit("heif");
    reveal_strlit("bmp");
    reveal_strlit("audio");
    reveal_strlit("mp3");
    reveal_strlit("wav");
    reveal_strlit("aiff");
    reveal_strlit("midi");
    reveal_strlit("mp4-audio");
    reveal_strlit("apple-protected-mp4-audio");
    reveal_strlit("flac");
    reveal_strlit("ogg-audio");
    reveal_strlit("ac3-audio");
    reveal_strlit("aac-audio");
    reveal_strlit("video");
    reveal_strlit("mpeg2-transport-stream");
    reveal_strlit("movie");
    reveal_strlit("quicktime-movie");
    reveal_strlit("mp4-movie");
    reveal_strlit("apple-protected-mp4-video");
    reveal_strlit("mpeg");
    reveal_strlit("mpeg2-video");
    reveal_strlit("avi");
    reveal_strlit("dv-movie");
    reveal_strlit("real-media");
    reveal_strlit("real-audio");
    reveal_strlit("webm");
    reveal_strlit("matroska");
    reveal_strlit("m3u-playlist");
    reveal_strlit("archive");
    reveal_strlit("zip");
    reveal_strlit("gzip");
    reveal_strlit("tar");
    reveal_strlit("bz2");
    reveal_strlit("apple-archive");
    reveal_strlit("sourcecode");
    reveal_strlit("c-source");
    reveal_strlit("c-header");
    reveal_strlit("cpp-source");
    reveal_strlit("cpp-header");
    reveal_strlit("objc-source");
    reveal_strlit("objc-plus-plus-source");
    reveal_strlit("swift-source");
    reveal_strlit("shell");
    reveal_strlit("makefile");
    reveal_strlit("javascript");
    reveal_strlit("python-script");
    reveal_strlit("ruby-script");
    reveal_strlit("perl-script");
    reveal_strlit("php-script");
    reveal_strlit("apple-script");
    reveal_strlit("assembly-source");
    reveal_strlit("data");
    reveal_strlit("directory");
    reveal_strlit("folder");
    reveal_strlit("symlink");
    reveal_strlit("executable");
    reveal_strlit("unix-executable");
    reveal_strlit("app-bundle");
    reveal_strlit("framework");
    reveal_strlit("disk-image");
    reveal_strlit("volume");
    reveal_strlit("mount-point");
    reveal_strlit("alias-file");
    reveal_strlit("3d-content");
    reveal_strlit("usd");
    reveal_strlit("usdz");
    assert(normalized(name_spec(SuperType::RealityFile)) =~= "reality-file"@);
    let n = normalized(name_spec(SuperType::RealityFile));
    assert(n != "text"@) by {
        assert("reality-file"@.len() != "text"@.len());
    }
    assert(n != "plain-text"@) by {
        assert("reality-file"@.len() != "plain-text"@.len());
    }
    assert(n != "csv"@) by {
        assert("reality-file"@.len() != "csv"@.len());
    }
    assert(n != "json"@) by {
        assert("reality-file"@.len() != "json"@.len());
    }
    assert(n != "xml"@) by {
        assert("reality-file"@.len() != "xml"@.len());
    }
    assert(n != "yaml"@) by {
        assert("reality-file"@.len() != "yaml"@.len());
    }
    assert(n != "html"@) by {
        assert("reality-file"@.len() != "html"@.len());
    }
    assert(n != "markdown"@) by {
        assert("reality-file"@.len() != "markdown"@.len());
    }
    assert(n != "rtf"@) by {
        assert("reality-file"@.len() != "rtf"@.len());
    }
    assert(n != "image"@) by {
        assert("reality-file"@.len() != "image"@.len());
    }
    assert(n != "raw-image"@) by {
        assert("reality-file"@.len() != "raw-image"@.len());
    }
    assert(n != "png"@) by {
        assert("reality-file"@.len() != "png"@.len());
    }
    assert(n != "jpeg"@) by {
        assert("reality-file"@.len() != "jpeg"@.len());
    }
    assert(n != "gif"@) by {
        assert("reality-file"@.len() != "gif"@.len());
    }
    assert(n != "tiff"@) by {
        assert("reality-file"@.len() != "tiff"@.len());
    }
    assert(n != "svg"@) by {
        assert("reality-file"@.len() != "svg"@.len());
    }
    assert(n != "webp"@) by {
        assert("reality-file"@.len() != "webp"@.len());
    }
    assert(n != "heic"@) by {
        assert("reality-file"@.len() != "heic"@.len());
    }
    assert(n != "heif"@) by {
        assert("reality-file"@.len() != "heif"@.len());
    }
    assert(n != "bmp"@) by {
        assert("reality-file"@.len() != "bmp"@.len());
    }
    assert(n != "audio"@) by {
        assert("reality-file"@.len() != "audio"@.len());
    }
    assert(n != "mp3"@) by {
        assert("reality-file"@.len() != "mp3"@.len());
    }
    assert(n != "wav"@) by {
        assert("reality-file"@.len() != "wav"@.len());
    }
    assert(n != "aiff"@) by {
        assert("reality-file"@.len() != "aiff"@.len());
    }
    assert(n != "midi"@) by {
        assert("reality-file"@.len() != "midi"@.len());
    }
    assert(n != "mp4-audio"@) by {
        assert("reality-file"@.len() != "mp4-audio"@.len());
    }
    assert(n != "apple-protected-mp4-audio"@) by {
        assert("reality-file"@.len() != "apple-protected-mp4-audio"@.len());
    }
    assert(n != "flac"@) by {
        assert("reality-file"@.len() != "flac"@.len());
    }
    assert(n != "ogg-audio"@) by {
        assert("reality-file"@.len() != "ogg-audio"@.len());
    }
    assert(n != "ac3-audio"@) by {
        assert("reality-file"@.len() != "ac3-audio"@.len());
    }
    assert(n != "aac-audio"@) by {
        assert("reality-file"@.len() != "aac-audio"@.len());
    }
    assert(n != "video"@) by {
        assert("reality-file"@.len() != "video"@.len());
    }
    assert(n != "mpeg2-transport-stream"@) by {
        assert("reality-file"@.len() != "mpeg2-transport-stream"@.len());
    }
    assert(n != "movie"@) by {
        assert("reality-file"@.len() != "movie"@.len());
    }
    assert(n != "quicktime-movie"@) by {
        assert("reality-file"@.len() != "quicktime-movie"@.len());
    }
    assert(n != "mp4-movie"@) by {
        assert("reality-file"@.len() != "mp4-movie"@.len());
    }
    assert(n != "apple-protected-mp4-video"@) by {
        assert("reality-file"@.len() != "apple-protected-mp4-video"@.len());
    }
    assert(n != "mpeg"@) by {
        assert("reality-file"@.len() != "mpeg"@.len());
    }
    assert(n != "mpeg2-video"@) by {
        assert("reality-file"@.len() != "mpeg2-video"@.len());
    }
    assert(n != "avi"@) by {
        assert("reality-file"@.len() != "avi"@.len());
    }
    assert(n != "dv-movie"@) by {
        assert("reality-file"@.len() != "dv-movie"@.len());
    }
    assert(n != "real-media"@) by {
        assert("reality-file"@.len() != "real-media"@.len());
    }
    assert(n != "real-audio"@) by {
        assert("reality-file"@.len() != "real-audio"@.len());
    }
    assert(n != "webm"@) by {
        assert("reality-file"@.len() != "webm"@.len());
    }
    assert(n != "matroska"@) by {
        assert("reality-file"@.len() != "matroska"@.len());
    }
    assert(n != "m3u-playlist"@) by {
        assert("reality-file"@[0] != "m3u-playlist"@[0]);
    }
    assert(n != "archive"@) by {
        assert("reality-file"@.len() != "archive"@.len());
    }
    assert(n != "zip"@) by {
        assert("reality-file"@.len() != "zip"@.len());
    }
    assert(n != "gzip"@) by {
        assert("reality-file"@.len() != "gzip"@.len());
    }
    assert(n != "tar"@) by {
        assert("reality-file"@.len() != "tar"@.len());
    }
    assert(n != "bz2"@) by {
        assert("reality-file"@.len() != "bz2"@.len());
    }
    assert(n != "apple-archive"@) by {
        assert("reality-file"@.len() != "apple-archive"@.len());
    }
    assert(n != "sourcecode"@) by {
        assert("reality-file"@.len() != "sourcecode"@.len());
    }
    assert(n != "c-source"@) by {
        assert("reality-file"@.len() != "c-source"@.len());
    }
    assert(n != "c-header"@) by {
        assert("reality-file"@.len() != "c-header"@.len());
    }
    assert(n != "cpp-source"@) by {
        assert("reality-file"@.len() != "cpp-source"@.len());
    }
    assert(n != "cpp-header"@) by {
        assert("reality-file"@.len() != "cpp-header"@.len());
    }
    assert(n != "objc-source"@) by {
        assert("reality-file"@.len() != "objc-source"@.len());
    }
    assert(n != "objc-plus-plus-source"@) by {
        assert("reality-file"@.len() != "objc-plus-plus-source"@.len());
    }
    assert(n != "swift-source"@) by {
        assert("reality-file"@[0] != "swift-source"@[0]);
    }
    assert(n != "shell"@) by {
        assert("reality-file"@.len() != "shell"@.len());
    }
    assert(n != "makefile"@) by {
        assert("reality-file"@.len() != "makefile"@.len());
    }
    assert(n != "javascript"@) by {
        assert("reality-file"@.len() != "javascript"@.len());
    }
    assert(n != "python-script"@) by {
        assert("reality-file"@.len() != "python-script"@.len());
    }
    assert(n != "ruby-script"@) by {
        assert("reality-file"@.len() != "ruby-script"@.len());
    }
    assert(n != "perl-script"@) by {
        assert("reality-file"@.len() != "perl-script"@.len());
    }
    assert(n != "php-script"@) by {
        assert("reality-file"@.len() != "php-script"@.len());
    }
    assert(n != "apple-script"@) by {
        assert("reality-file"@[0] != "apple-script"@[0]);
    }
    assert(n != "assembly-source"@) by {
        assert("reality-file"@.len() != "assembly-source"@.len());
    }
    assert(n != "data"@) by {
        assert("reality-file"@.len() != "data"@.len());
    }
    assert(n != "directory"@) by {
        assert("reality-file"@.len() != "directory"@.len());
    }
    assert(n != "folder"@) by {
        assert("reality-file"@.len() != "folder"@.len());
    }
    assert(n != "symlink"@) by {
        assert("reality-file"@.len() != "symlink"@.len());
    }
    assert(n != "executable"@) by {
        assert("reality-file"@.len() != "executable"@.len());
    }
    assert(n != "unix-executable"@) by {
        assert("reality-file"@.len() != "unix-executable"@.len());
    }
    assert(n != "app-bundle"@) by {
        assert("reality-file"@.len() != "app-bundle"@.len());
    }
    assert(n != "framework"@) by {
        assert("reality-file"@.len() != "framework"@.len());
    }
    assert(n != "disk-image"@) by {
        assert("reality-file"@.len() != "disk-image"@.len());
    }
    assert(n != "volume"@) by {
        assert("reality-file"@.len() != "volume"@.len());
    }
    assert(n != "mount-point"@) by {
        assert("reality-file"@.len() != "mount-point"@.len());
    }
    assert(n != "alias-file"@) by {
        assert("reality-file"@.len() != "alias-file"@.len());
    }
    assert(n != "3d-content"@) by {
        assert("reality-file"@.len() != "3d-content"@.len());
    }
    assert(n != "usd"@) by {
        assert("reality-file"@.len() != "usd"@.len());
    }
    assert(n != "usdz"@) by {
        assert("reality-file"@.len() != "usdz"@.len());
    }
    assert(parse_spec(n) == Some(SuperType::RealityFile));
}

proof fn lemma_display_parse_scenekitscene()
    ensures
        parse_spec(normalized(name_spec(SuperType::SceneKitScene))) == Some(SuperType::SceneKitScene),
{
    reveal_strlit("scenekit-scene");
    reveal_strlit("text");
    reveal_strlit("plain-text");
    reveal_strlit("csv");
    reveal_strlit("json");
    reveal_strlit("xml");
    reveal_strlit("yaml");
    reveal_strlit("html");
    reveal_strlit("markdown");
    reveal_strlit("rtf");
    reveal_strlit("image");
    reveal_strlit("raw-image");
    reveal_strlit("png");
    reveal_strlit("jpeg");
    reveal_strlit("gif");
    reveal_strlit("tiff");
    reveal_strlit("svg");
    reveal_strlit("webp");
    reveal_strlit("heic");
    reveal_strlit("heif");
    reveal_strlit("bmp");
    reveal_strlit("audio");
    reveal_strlit("mp3");
    reveal_strlit("wav");
    reveal_strlit("aiff");
    reveal_strlit("midi");
    reveal_strlit("mp4-audio");
    reveal_strlit("apple-protected-mp4-audio");
    reveal_strlit("flac");
    reveal_strlit("ogg-audio");
    reveal_strlit("ac3-audio");
    reveal_strlit("aac-audio");
    reveal_strlit("video");
    reveal_strlit("mpeg2-transport-stream");
    reveal_strlit("movie");
    reveal_strlit("quicktime-movie");
    reveal_strlit("mp4-movie");
    reveal_strlit("apple-protected-mp4-video");
    reveal_strlit("mpeg");
    reveal_strlit("mpeg2-video");
    reveal_strlit("avi");
    reveal_strlit("dv-movie");
    reveal_strlit("real-media");
    reveal_strlit("real-audio");
    reveal_strlit("webm");
    reveal_strlit("matroska");
    reveal_strlit("m3u-playlist");
    reveal_strlit("archive");
    reveal_strlit("zip");
    reveal_strlit("gzip");
    reveal_strlit("tar");
    reveal_strlit("bz2");
    reveal_strlit("apple-archive");
    reveal_strlit("sourcecode");
    reveal_strlit("c-source");
    reveal_strlit("c-header");
    reveal_strlit("cpp-source");
    reveal_strlit("cpp-header");
    reveal_strlit("objc-source");
    reveal_strlit("objc-plus-plus-source");
    reveal_strlit("swift-source");
    reveal_strlit("shell");
    reveal_strlit("makefile");
    reveal_strlit("javascript");
    reveal_strlit("python-script");
    reveal_strlit("ruby-script");
    reveal_strlit("perl-script");
    reveal_strlit("php-script");
    reveal_strlit("apple-script");
    reveal_strlit("assembly-source");
    reveal_strlit("data");
    reveal_strlit("directory");
    reveal_strlit("folder");
    reveal_strlit("symlink");
    reveal_strlit("executable");
    reveal_strlit("unix-executable");
    reveal_strlit("app-bundle");
    reveal_strlit("framework");
    reveal_strlit("disk-image");
    reveal_strlit("volume");
    reveal_strlit("mount-point");
    reveal_strlit("alias-file");
    reveal_strlit("3d-content");
    reveal_strlit("usd");
    reveal_strlit("usdz");
    reveal_strlit("reality-file");
    assert(normalized(name_spec(SuperType::SceneKitScene)) =~= "scenekit-scene"@);
    let n = normalized(name_spec(SuperType::SceneKitScene));
    assert(n != "text"@) by {
        assert("scenekit-scene"@.len() != "text"@.len());
    }
    assert(n != "plain-text"@) by {
        assert("scenekit-scene"@.len() != "plain-text"@.len());
    }
    assert(n != "csv"@) by {
        assert("scenekit-scene"@.len() != "csv"@.len());
    }
    assert(n != "json"@) by {
        assert("scenekit-scene"@.len() != "json"@.len());
    }
    assert(n != "xml"@) by {
        assert("scenekit-scene"@.len() != "xml"@.len());
    }
    assert(n != "yaml"@) by {
        assert("scenekit-scene"@.len() != "yaml"@.len());
    }
    assert(n != "html"@) by {
        assert("scenekit-scene"@.len() != "html"@.len());
    }
    assert(n != "markdown"@) by {
        assert("scenekit-scene"@.len() != "markdown"@.len());
    }
    assert(n != "rtf"@) by {
        assert("scenekit-scene"@.len() != "rtf"@.len());
    }
    assert(n != "image"@) by {
        assert("scenekit-scene"@.len() != "image"@.len());
    }
    assert(n != "raw-image"@) by {
        assert("scenekit-scene"@.len() != "raw-image"@.len());
    }
    assert(n != "png"@) by {
        assert("scenekit-scene"@.len() != "png"@.len());
    }
    assert(n != "jpeg"@) by {
        assert("scenekit-scene"@.len() != "jpeg"@.len());
    }
    assert(n != "gif"@) by {
        assert("scenekit-scene"@.len() != "gif"@.len());
    }
    assert(n != "tiff"@) by {
        assert("scenekit-scene"@.len() != "tiff"@.len());
    }
    assert(n != "svg"@) by {
        assert("scenekit-scene"@.len() != "svg"@.len());
    }
    assert(n != "webp"@) by {
        assert("scenekit-scene"@.len() != "webp"@.len());
    }
    assert(n != "heic"@) by {
        assert("scenekit-scene"@.len() != "heic"@.len());
    }
    assert(n != "heif"@) by {
        assert("scenekit-scene"@.len() != "heif"@.len());
    }
    assert(n != "bmp"@) by {
        assert("scenekit-scene"@.len() != "bmp"@.len());
    }
    assert(n != "audio"@) by {
        assert("scenekit-scene"@.len() != "audio"@.len());
    }
    assert(n != "mp3"@) by {
        assert("scenekit-scene"@.len() != "mp3"@.len());
    }
    assert(n != "wav"@) by {
        assert("scenekit-scene"@.len() != "wav"@.len());
    }
    assert(n != "aiff"@) by {
        assert("scenekit-scene"@.len() != "aiff"@.len());
    }
    assert(n != "midi"@) by {
        assert("scenekit-scene"@.len() != "midi"@.len());
    }
    assert(n != "mp4-audio"@) by {
        assert("scenekit-scene"@.len() != "mp4-audio"@.len());
    }
    assert(n != "apple-protected-mp4-audio"@) by {
        assert("scenekit-scene"@.len() != "apple-protected-mp4-audio"@.len());
    }
    assert(n != "flac"@) by {
        assert("scenekit-scene"@.len() != "flac"@.len());
    }
    assert(n != "ogg-audio"@) by {
        assert("scenekit-scene"@.len() != "ogg-audio"@.len());
    }
    assert(n != "ac3-audio"@) by {
        assert("scenekit-scene"@.len() != "ac3-audio"@.len());
    }
    assert(n != "aac-audio"@) by {
        assert("scenekit-scene"@.len() != "aac-audio"@.len());
    }
    assert(n != "video"@) by {
        assert("scenekit-scene"@.len() != "video"@.len());
    }
    assert(n != "mpeg2-transport-stream"@) by {
        assert("scenekit-scene"@.len() != "mpeg2-transport-stream"@.len());
    }
    assert(n != "movie"@) by {
        assert("scenekit-scene"@.len() != "movie"@.len());
    }
    assert(n != "quicktime-movie"@) by {
        assert("scenekit-scene"@.len() != "quicktime-movie"@.len());
    }
    assert(n != "mp4-movie"@) by {
        assert("scenekit-scene"@.len() != "mp4-movie"@.len());
    }
    assert(n != "apple-protected-mp4-video"@) by {
        assert("scenekit-scene"@.len() != "apple-protected-mp4-video"@.len());
    }
    assert(n != "mpeg"@) by {
        assert("scenekit-scene"@.len() != "mpeg"@.len());
    }
    assert(n != "mpeg2-video"@) by {
        assert("scenekit-scene"@.len() != "mpeg2-video"@.len());
    }
    assert(n != "avi"@) by {
        assert("scenekit-scene"@.len() != "avi"@.len());
    }
    assert(n != "dv-movie"@) by {
        assert("scenekit-scene"@.len() != "dv-movie"@.len());
    }
    assert(n != "real-media"@) by {
        assert("scenekit-scene"@.len() != "real-media"@.len());
    }
    assert(n != "real-audio"@) by {
        assert("scenekit-scene"@.len() != "real-audio"@.len());
    }
    assert(n != "webm"@) by {
        assert("scenekit-scene"@.len() != "webm"@.len());
    }
    assert(n != "matroska"@) by {
        assert("scenekit-scene"@.len() != "matroska"@.len());
    }
    assert(n != "m3u-playlist"@) by {
        assert("scenekit-scene"@.len() != "m3u-playlist"@.len());
    }
    assert(n != "archive"@) by {
        assert("scenekit-scene"@.len() != "archive"@.len());
    }
    assert(n != "zip"@) by {
        assert("scenekit-scene"@.len() != "zip"@.len());
    }
    assert(n != "gzip"@) by {
        assert("scenekit-scene"@.len() != "gzip"@.len());
    }
    assert(n != "tar"@) by {
        assert("scenekit-scene"@.len() != "tar"@.len());
    }
    assert(n != "bz2"@) by {
        assert("scenekit-scene"@.len() != "bz2"@.len());
    }
    assert(n != "apple-archive"@) by {
        assert("scenekit-scene"@.len() != "apple-archive"@.len());
    }
    assert(n != "sourcecode"@) by {
        assert("scenekit-scene"@.len() != "sourcecode"@.len());
    }
    assert(n != "c-source"@) by {
        assert("scenekit-scene"@.len() != "c-source"@.len());
    }
    assert(n != "c-header"@) by {
        assert("scenekit-scene"@.len() != "c-header"@.len());
    }
    assert(n != "cpp-source"@) by {
        assert("scenekit-scene"@.len() != "cpp-source"@.len());
    }
    assert(n != "cpp-header"@) by {
        assert("scenekit-scene"@.len() != "cpp-header"@.len());
    }
    assert(n != "objc-source"@) by {
        assert("scenekit-scene"@.len() != "objc-source"@.len());
    }
    assert(n != "objc-plus-plus-source"@) by {
        assert("scenekit-scene"@.len() != "objc-plus-plus-source"@.len());
    }
    assert(n != "swift-source"@) by {
        assert("scenekit-scene"@.len() != "swift-source"@.len());
    }
    assert(n != "shell"@) by {
        assert("scenekit-scene"@.len() != "shell"@.len());
    }
    assert(n != "makefile"@) by {
        assert("scenekit-scene"@.len() != "makefile"@.len());
    }
    assert(n != "javascript"@) by {
        assert("scenekit-scene"@.len() != "javascript"@.len());
    }
    assert(n != "python-script"@) by {
        assert("scenekit-scene"@.len() != "python-script"@.len());
    }
    assert(n != "ruby-script"@) by {
        assert("scenekit-scene"@.len() != "ruby-script"@.len());
    }
    assert(n != "perl-script"@) by {
        assert("scenekit-scene"@.len() != "perl-script"@.len());
    }
    assert(n != "php-script"@) by {
        assert("scenekit-scene"@.len() != "php-script"@.len());
    }
    assert(n != "apple-script"@) by {
        assert("scenekit-scene"@.len() != "apple-script"@.len());
    }
    assert(n != "assembly-source"@) by {
        assert("scenekit-scene"@.len() != "assembly-source"@.len());
    }
    assert(n != "data"@) by {
        assert("scenekit-scene"@.len() != "data"@.len());
    }
    assert(n != "directory"@) by {
        assert("scenekit-scene"@.len() != "directory"@.len());
    }
    assert(n != "folder"@) by {
        assert("scenekit-scene"@.len() != "folder"@.len());
    }
    assert(n != "symlink"@) by {
        assert("scenekit-scene"@.len() != "symlink"@.len());
    }
    assert(n != "executable"@) by {
        assert("scenekit-scene"@.len() != "executable"@.len());
    }
    assert(n != "unix-executable"@) by {
        assert("scenekit-scene"@.len() != "unix-executable"@.len());
    }
    assert(n != "app-bundle"@) by {
        assert("scenekit-scene"@.len() != "app-bundle"@.len());
    }
    assert(n != "framework"@) by {
        assert("scenekit-scene"@.len() != "framework"@.len());
    }
    assert(n != "disk-image"@) by {
        assert("scenekit-scene"@.len() != "disk-image"@.len());
    }
    assert(n != "volume"@) by {
        assert("scenekit-scene"@.len() != "volume"@.len());
    }
    assert(n != "mount-point"@) by {
        assert("scenekit-scene"@.len() != "mount-point"@.len());
    }
    assert(n != "alias-file"@) by {
        assert("scenekit-scene"@.len() != "alias-file"@.len());
    }
    assert(n != "3d-content"@) by {
        assert("scenekit-scene"@.len() != "3d-content"@.len());
    }
    assert(n != "usd"@) by {
        assert("scenekit-scene"@.len() != "usd"@.len());
    }
    assert(n != "usdz"@) by {
        assert("scenekit-scene"@.len() != "usdz"@.len());
    }
    assert(n != "reality-file"@) by {
        assert("scenekit-scene"@.len() != "reality-file"@.len());
    }
    assert(parse_spec(n) == Some(SuperType::SceneKitScene));
}

proof fn lemma_display_parse_font()
    ensures
        parse_spec(normalized(name_spec(SuperType::Font))) == Some(SuperType::Font),
{
    reveal_strlit("font");
    reveal_strlit("text");
    reveal_strlit("plain-text");
    reveal_strlit("csv");
    reveal_strlit("json");
    reveal_strlit("xml");
    reveal_strlit("yaml");
    reveal_strlit("html");
    reveal_strlit("markdown");
    reveal_strlit("rtf");
    reveal_strlit("image");
    reveal_strlit("raw-image");
    reveal_strlit("png");
    reveal_strlit("jpeg");
    reveal_strlit("gif");
    reveal_strlit("tiff");
    reveal_strlit("svg");
    reveal_strlit("webp");
    reveal_strlit("heic");
    reveal_strlit("heif");
    reveal_strlit("bmp");
    reveal_strlit("audio");
    reveal_strlit("mp3");
    reveal_strlit("wav");
    reveal_strlit("aiff");
    reveal_strlit("midi");
    reveal_strlit("mp4-audio");
    reveal_strlit("apple-protected-mp4-audio");
    reveal_strlit("flac");
    reveal_strlit("ogg-audio");
    reveal_strlit("ac3-audio");
    reveal_strlit("aac-audio");
    reveal_strlit("video");
    reveal_strlit("mpeg2-transport-stream");
    reveal_strlit("movie");
    reveal_strlit("quicktime-movie");
    reveal_strlit("mp4-movie");
    reveal_strlit("apple-protected-mp4-video");
    reveal_strlit("mpeg");
    reveal_strlit("mpeg2-video");
    reveal_strlit("avi");
    reveal_strlit("dv-movie");
    reveal_strlit("real-media");
    reveal_strlit("real-audio");
    reveal_strlit("webm");
    reveal_strlit("matroska");
    reveal_strlit("m3u-playlist");
    reveal_strlit("archive");
    reveal_strlit("zip");
    reveal_strlit("gzip");
    reveal_strlit("tar");
    reveal_strlit("bz2");
    reveal_strlit("apple-archive");
    reveal_strlit("sourcecode");
    reveal_strlit("c-source");
    reveal_strlit("c-header");
    reveal_strlit("cpp-source");
    reveal_strlit("cpp-header");
    reveal_strlit("objc-source");
    reveal_strlit("objc-plus-plus-source");
    reveal_strlit("swift-source");
    reveal_strlit("shell");
    reveal_strlit("makefile");
    reveal_strlit("javascript");
    reveal_strlit("python-script");
    reveal_strlit("ruby-script");
    reveal_strlit("perl-script");
    reveal_strlit("php-script");
    reveal_strlit("apple-script");
    reveal_strlit("assembly-source");
    reveal_strlit("data");
    reveal_strlit("directory");
    reveal_strlit("folder");
    reveal_strlit("symlink");
    reveal_strlit("executable");
    reveal_strlit("unix-executable");
    reveal_strlit("app-bundle");
    reveal_strlit("framework");
    reveal_strlit("disk-image");
    reveal_strlit("volume");
    reveal_strlit("mount-point");
    reveal_strlit("alias-file");
    reveal_strlit("3d-content");
    reveal_strlit("usd");
    reveal_strlit("usdz");
    reveal_strlit("reality-file");
    reveal_strlit("scenekit-scene");
    assert(normalized(name_spec(SuperType::Font)) =~= "font"@);
    let n = normalized(name_spec(SuperType::Font));
    assert(n != "text"@) by {
        assert("font"@[0] != "text"@[0]);
    }
    assert(n != "plain-text"@) by {
        assert("font"@.len() != "plain-text"@.len());
    }
    assert(n != "csv"@) by {
        assert("font"@.len() != "csv"@.len());
    }
    assert(n != "json"@) by {
        assert("font"@[0] != "json"@[0]);
    }
    assert(n != "xml"@) by {
        assert("font"@.len() != "xml"@.len());
    }
    assert(n != "yaml"@) by {
        assert("font"@[0] != "yaml"@[0]);
    }
    assert(n != "html"@) by {
        assert("font"@[0] != "html"@[0]);
    }
    assert(n != "markdown"@) by {
        assert("font"@.len() != "markdown"@.len());
    }
    assert(n != "rtf"@) by {
        assert("font"@.len() != "rtf"@.len());
    }
    assert(n != "image"@) by {
        assert("font"@.len() != "image"@.len());
    }
    assert(n != "raw-image"@) by {
        assert("font"@.len() != "raw-image"@.len());
    }
    assert(n != "png"@) by {
        assert("font"@.len() != "png"@.len());
    }
    assert(n != "jpeg"@) by {
        assert("font"@[0] != "jpeg"@[0]);
    }
    assert(n != "gif"@) by {
        assert("font"@.len() != "gif"@.len());
    }
    assert(n != "tiff"@) by {
        assert("font"@[0] != "tiff"@[0]);
    }
    assert(n != "svg"@) by {
        assert("font"@.len() != "svg"@.len());
    }
    assert(n != "webp"@) by {
        assert("font"@[0] != "webp"@[0]);
    }
    assert(n != "heic"@) by {
        assert("font"@[0] != "heic"@[0]);
    }
    assert(n != "heif"@) by {
        assert("font"@[0] != "heif"@[0]);
    }
    assert(n != "bmp"@) by {
        assert("font"@.len() != "bmp"@.len());
    }
    assert(n != "audio"@) by {
        assert("font"@.len() != "audio"@.len());
    }
    assert(n != "mp3"@) by {
        assert("font"@.len() != "mp3"@.len());
    }
    assert(n != "wav"@) by {
        assert("font"@.len() != "wav"@.len());
    }
    assert(n != "aiff"@) by {
        assert("font"@[0] != "aiff"@[0]);
    }
    assert(n != "midi"@) by {
        assert("font"@[0] != "midi"@[0]);
    }
    assert(n != "mp4-audio"@) by {
        assert("font"@.len() != "mp4-audio"@.len());
    }
    assert(n != "apple-protected-mp4-audio"@) by {
        assert("font"@.len() != "apple-protected-mp4-audio"@.len());
    }
    assert(n != "flac"@) by {
        assert("font"@[1] != "flac"@[1]);
    }
    assert(n != "ogg-audio"@) by {
        assert("font"@.len() != "ogg-audio"@.len());
    }
    assert(n != "ac3-audio"@) by {
        assert("font"@.len() != "ac3-audio"@.len());
    }
    assert(n != "aac-audio"@) by {
        assert("font"@.len() != "aac-audio"@.len());
    }
    assert(n != "video"@) by {
        assert("font"@.len() != "video"@.len());
    }
    assert(n != "mpeg2-transport-stream"@) by {
        assert("font"@.len() != "mpeg2-transport-stream"@.len());
    }
    assert(n != "movie"@) by {
        assert("font"@.len() != "movie"@.len());
    }
    assert(n != "quicktime-movie"@) by {
        assert("font"@.len() != "quicktime-movie"@.len());
    }
    assert(n != "mp4-movie"@) by {
        assert("font"@.len() != "mp4-movie"@.len());
    }
    assert(n != "apple-protected-mp4-video"@) by {
        assert("font"@.len() != "apple-protected-mp4-video"@.len());
    }
    assert(n != "mpeg"@) by {
        assert("font"@[0] != "mpeg"@[0]);
    }
    assert(n != "mpeg2-video"@) by {
        assert("font"@.len() != "mpeg2-video"@.len());
    }
    assert(n != "avi"@) by {
        assert("font"@.len() != "avi"@.len());
    }
    assert(n != "dv-movie"@) by {
        assert("font"@.len() != "dv-movie"@.len());
    }
    assert(n != "real-media"@) by {
        assert("font"@.len() != "real-media"@.len());
    }
    assert(n != "real-audio"@) by {
        assert("font"@.len() != "real-audio"@.len());
    }
    assert(n != "webm"@) by {
        assert("font"@[0] != "webm"@[0]);
    }
    assert(n != "matroska"@) by {
        assert("font"@.len() != "matroska"@.len());
    }
    assert(n != "m3u-playlist"@) by {
        assert("font"@.len() != "m3u-playlist"@.len());
    }
    assert(n != "archive"@) by {
        assert("font"@.len() != "archive"@.len());
    }
    assert(n != "zip"@) by {
        assert("font"@.len() != "zip"@.len());
    }
    assert(n != "gzip"@) by {
        assert("font"@[0] != "gzip"@[0]);
    }
    assert(n != "tar"@) by {
        assert("font"@.len() != "tar"@.len());
    }
    assert(n != "bz2"@) by {
        assert("font"@.len() != "bz2"@.len());
    }
    assert(n != "apple-archive"@) by {
        assert("font"@.len() != "apple-archive"@.len());
    }
    assert(n != "sourcecode"@) by {
        assert("font"@.len() != "sourcecode"@.len());
    }
    assert(n != "c-source"@) by {
        assert("font"@.len() != "c-source"@.len());
    }
    assert(n != "c-header"@) by {
        assert("font"@.len() != "c-header"@.len());
    }
    assert(n != "cpp-source"@) by {
        assert("font"@.len() != "cpp-source"@.len());
    }
    assert(n != "cpp-header"@) by {
        assert("font"@.len() != "cpp-header"@.len());
    }
    assert(n != "objc-source"@) by {
        assert("font"@.len() != "objc-source"@.len());
    }
    assert(n != "objc-plus-plus-source"@) by {
        assert("font"@.len() != "objc-plus-plus-source"@.len());
    }
    assert(n != "swift-source"@) by {
        assert("font"@.len() != "swift-source"@.len());
    }
    assert(n != "shell"@) by {
        assert("font"@.len() != "shell"@.len());
    }
    assert(n != "makefile"@) by {
        assert("font"@.len() != "makefile"@.len());
    }
    assert(n != "javascript"@) by {
        assert("font"@.len() != "javascript"@.len());
    }
    assert(n != "python-script"@) by {
        assert("font"@.len() != "python-script"@.len());
    }
    assert(n != "ruby-script"@) by {
        assert("font"@.len() != "ruby-script"@.len());
    }
    assert(n != "perl-script"@) by {
        assert("font"@.len() != "perl-script"@.len());
    }
    assert(n != "php-script"@) by {
        assert("font"@.len() != "php-script"@.len());
    }
    assert(n != "apple-script"@) by {
        assert("font"@.len() != "apple-script"@.len());
    }
    assert(n != "assembly-source"@) by {
        assert("font"@.len() != "assembly-source"@.len());
    }
    assert(n != "data"@) by {
        assert("font"@[0] != "data"@[0]);
    }
    assert(n != "directory"@) by {
        assert("font"@.len() != "directory"@.len());
    }
    assert(n != "folder"@) by {
        assert("font"@.len() != "folder"@.len());
    }
    assert(n != "symlink"@) by {
        assert("font"@.len() != "symlink"@.len());
    }
    assert(n != "executable"@) by {
        assert("font"@.len() != "executable"@.len());
    }
    assert(n != "unix-executable"@) by {
        assert("font"@.len() != "unix-executable"@.len());
    }
    assert(n != "app-bundle"@) by {
        assert("font"@.len() != "app-bundle"@.len());
    }
    assert(n != "framework"@) by {
        assert("font"@.len() != "framework"@.len());
    }
    assert(n != "disk-image"@) by {
        assert("font"@.len() != "disk-image"@.len());
    }
    assert(n != "volume"@) by {
        assert("font"@.len() != "volume"@.len());
    }
    assert(n != "mount-point"@) by {
        assert("font"@.len() != "mount-point"@.len());
    }
    assert(n != "alias-file"@) by {
        assert("font"@.len() != "alias-file"@.len());
    }
    assert(n != "3d-content"@) by {
        assert("font"@.len() != "3d-content"@.len());
    }
    assert(n != "usd"@) by {
        assert("font"@.len() != "usd"@.len());
    }
    assert(n != "usdz"@) by {
        assert("font"@[0] != "usdz"@[0]);
    }
    assert(n != "reality-file"@) by {
        assert("font"@.len() != "reality-file"@.len());
    }
    assert(n != "scenekit-scene"@) by {
        assert("font"@.len() != "scenekit-scene"@.len());
    }
    assert(parse_spec(n) == Some(SuperType::Font));
}

proof fn lemma_display_parse_pkcs12()
    ensures
        parse_spec(normalized(name_spec(SuperType::Pkcs12))) == Some(SuperType::Pkcs12),
{
    reveal_strlit("pkcs12");
    reveal_strlit("text");
    reveal_strlit("plain-text");
    reveal_strlit("csv");
    reveal_strlit("json");
    reveal_strlit("xml");
    reveal_strlit("yaml");
    reveal_strlit("html");
    reveal_strlit("markdown");
    reveal_strlit("rtf");
    reveal_strlit("image");
    reveal_strlit("raw-image");
    reveal_strlit("png");
    reveal_strlit("jpeg");
    reveal_strlit("gif");
    reveal_strlit("tiff");
    reveal_strlit("svg");
    reveal_strlit("webp");
    reveal_strlit("heic");
    reveal_strlit("heif");
    reveal_strlit("bmp");
    reveal_strlit("audio");
    reveal_strlit("mp3");
    reveal_strlit("wav");
    reveal_strlit("aiff");
    reveal_strlit("midi");
    reveal_strlit("mp4-audio");
    reveal_strlit("apple-protected-mp4-audio");
    reveal_strlit("flac");
    reveal_strlit("ogg-audio");
    reveal_strlit("ac3-audio");
    reveal_strlit("aac-audio");
    reveal_strlit("video");
    reveal_strlit("mpeg2-transport-stream");
    reveal_strlit("movie");
    reveal_strlit("quicktime-movie");
    reveal_strlit("mp4-movie");
    reveal_strlit("apple-protected-mp4-video");
    reveal_strlit("mpeg");
    reveal_strlit("mpeg2-video");
    reveal_strlit("avi");
    reveal_strlit("dv-movie");
    reveal_strlit("real-media");
    reveal_strlit("real-audio");
    reveal_strlit("webm");
    reveal_strlit("matroska");
    reveal_strlit("m3u-playlist");
    reveal_strlit("archive");
    reveal_strlit("zip");
    reveal_strlit("gzip");
    reveal_strlit("tar");
    reveal_strlit("bz2");
    reveal_strlit("apple-archive");
    reveal_strlit("sourcecode");
    reveal_strlit("c-source");
    reveal_strlit("c-header");
    reveal_strlit("cpp-source");
    reveal_strlit("cpp-header");
    reveal_strlit("objc-source");
    reveal_strlit("objc-plus-plus-source");
    reveal_strlit("swift-source");
    reveal_strlit("shell");
    reveal_strlit("makefile");
    reveal_strlit("javascript");
    reveal_strlit("python-script");
    reveal_strlit("ruby-script");
    reveal_strlit("perl-script");
    reveal_strlit("php-script");
    reveal_strlit("apple-script");
    reveal_strlit("assembly-source");
    reveal_strlit("data");
    reveal_strlit("directory");
    reveal_strlit("folder");
    reveal_strlit("symlink");
    reveal_strlit("executable");
    reveal_strlit("unix-executable");
    reveal_strlit("app-bundle");
    reveal_strlit("framework");
    reveal_strlit("disk-image");
    reveal_strlit("volume");
    reveal_strlit("mount-point");
    reveal_strlit("alias-file");
    reveal_strlit("3d-content");
    reveal_strlit("usd");
    reveal_strlit("usdz");
    reveal_strlit("reality-file");
    reveal_strlit("scenekit-scene");
    reveal_strlit("font");
    assert(normalized(name_spec(SuperType::Pkcs12)) =~= "pkcs12"@);
    let n = normalized(name_spec(SuperType::Pkcs12));
    assert(n != "text"@) by {
        assert("pkcs12"@.len() != "text"@.len());
    }
    assert(n != "plain-text"@) by {
        assert("pkcs12"@.len() != "plain-text"@.len());
    }
    assert(n != "csv"@) by {
        assert("pkcs12"@.len() != "csv"@.len());
    }
    assert(n != "json"@) by {
        assert("pkcs12"@.len() != "json"@.len());
    }
    assert(n != "xml"@) by {
        assert("pkcs12"@.len() != "xml"@.len());
    }
    assert(n != "yaml"@) by {
        assert("pkcs12"@.len() != "yaml"@.len());
    }
    assert(n != "html"@) by {
        assert("pkcs12"@.len() != "html"@.len());
    }
    assert(n != "markdown"@) by {
        assert("pkcs12"@.len() != "markdown"@.len());
    }
    assert(n != "rtf"@) by {
        assert("pkcs12"@.len() != "rtf"@.len());
    }
    assert(n != "image"@) by {
        assert("pkcs12"@.len() != "image"@.len());
    }
    assert(n != "raw-image"@) by {
        assert("pkcs12"@.len() != "raw-image"@.len());
    }
    assert(n != "png"@) by {
        assert("pkcs12"@.len() != "png"@.len());
    }
    assert(n != "jpeg"@) by {
        assert("pkcs12"@.len() != "jpeg"@.len());
    }
    assert(n != "gif"@) by {
        assert("pkcs12"@.len() != "gif"@.len());
    }
    assert(n != "tiff"@) by {
        assert("pkcs12"@.len() != "tiff"@.len());
    }
    assert(n != "svg"@) by {
        assert("pkcs12"@.len() != "svg"@.len());
    }
    assert(n != "webp"@) by {
        assert("pkcs12"@.len() != "webp"@.len());
    }
    assert(n != "heic"@) by {
        assert("pkcs12"@.len() != "heic"@.len());
    }
    assert(n != "heif"@) by {
        assert("pkcs12"@.len() != "heif"@.len());
    }
    assert(n != "bmp"@) by {
        assert("pkcs12"@.len() != "bmp"@.len());
    }
    assert(n != "audio"@) by {
        assert("pkcs12"@.len() != "audio"@.len());
    }
    assert(n != "mp3"@) by {
        assert("pkcs12"@.len() != "mp3"@.len());
    }
    assert(n != "wav"@) by {
        assert("pkcs12"@.len() != "wav"@.len());
    }
    assert(n != "aiff"@) by {
        assert("pkcs12"@.len() != "aiff"@.len());
    }
    assert(n != "midi"@) by {
        assert("pkcs12"@.len() != "midi"@.len());
    }
    assert(n != "mp4-audio"@) by {
        assert("pkcs12"@.len() != "mp4-audio"@.len());
    }
    assert(n != "apple-protected-mp4-audio"@) by {
        assert("pkcs12"@.len() != "apple-protected-mp4-audio"@.len());
    }
    assert(n != "flac"@) by {
        assert("pkcs12"@.len() != "flac"@.len());
    }
    assert(n != "ogg-audio"@) by {
        assert("pkcs12"@.len() != "ogg-audio"@.len());
    }
    assert(n != "ac3-audio"@) by {
        assert("pkcs12"@.len() != "ac3-audio"@.len());
    }
    assert(n != "aac-audio"@) by {
        assert("pkcs12"@.len() != "aac-audio"@.len());
    }
    assert(n != "video"@) by {
        assert("pkcs12"@.len() != "video"@.len());
    }
    assert(n != "mpeg2-transport-stream"@) by {
        assert("pkcs12"@.len() != "mpeg2-transport-stream"@.len());
    }
    assert(n != "movie"@) by {
        assert("pkcs12"@.len() != "movie"@.len());
    }
    assert(n != "quicktime-movie"@) by {
        assert("pkcs12"@.len() != "quicktime-movie"@.len());
    }
    assert(n != "mp4-movie"@) by {
        assert("pkcs12"@.len() != "mp4-movie"@.len());
    }
    assert(n != "apple-protected-mp4-video"@) by {
        assert("pkcs12"@.len() != "apple-protected-mp4-video"@.len());
    }
    assert(n != "mpeg"@) by {
        assert("pkcs12"@.len() != "mpeg"@.len());
    }
    assert(n != "mpeg2-video"@) by {
        assert("pkcs12"@.len() != "mpeg2-video"@.len());
    }
    assert(n != "avi"@) by {
        assert("pkcs12"@.len() != "avi"@.len());
    }
    assert(n != "dv-movie"@) by {
        assert("pkcs12"@.len() != "dv-movie"@.len());
    }
    assert(n != "real-media"@) by {
        assert("pkcs12"@.len() != "real-media"@.len());
    }
    assert(n != "real-audio"@) by {
        assert("pkcs12"@.len() != "real-audio"@.len());
    }
    assert(n != "webm"@) by {
        assert("pkcs12"@.len() != "webm"@.len());
    }
    assert(n != "matroska"@) by {
        assert("pkcs12"@.len() != "matroska"@.len());
    }
    assert(n != "m3u-playlist"@) by {
        assert("pkcs12"@.len() != "m3u-playlist"@.len());
    }
    assert(n != "archive"@) by {
        assert("pkcs12"@.len() != "archive"@.len());
    }
    assert(n != "zip"@) by {
        assert("pkcs12"@.len() != "zip"@.len());
    }
    assert(n != "gzip"@) by {
        assert("pkcs12"@.len() != "gzip"@.len());
    }
    assert(n != "tar"@) by {
        assert("pkcs12"@.len() != "tar"@.len());
    }
    assert(n != "bz2"@) by {
        assert("pkcs12"@.len() != "bz2"@.len());
    }
    assert(n != "apple-archive"@) by {
        assert("pkcs12"@.len() != "apple-archive"@.len());
    }
    assert(n != "sourcecode"@) by {
        assert("pkcs12"@.len() != "sourcecode"@.len());
    }
    assert(n != "c-source"@) by {
        assert("pkcs12"@.len() != "c-source"@.len());
    }
    assert(n != "c-header"@) by {
        assert("pkcs12"@.len() != "c-header"@.len());
    }
    assert(n != "cpp-source"@) by {
        assert("pkcs12"@.len() != "cpp-source"@.len());
    }
    assert(n != "cpp-header"@) by {
        assert("pkcs12"@.len() != "cpp-header"@.len());
    }
    assert(n != "objc-source"@) by {
        assert("pkcs12"@.len() != "objc-source"@.len());
    }
    assert(n != "objc-plus-plus-source"@) by {
        assert("pkcs12"@.len() != "objc-plus-plus-source"@.len());
    }
    assert(n != "swift-source"@) by {
        assert("pkcs12"@.len() != "swift-source"@.len());
    }
    assert(n != "shell"@) by {
        assert("pkcs12"@.len() != "shell"@.len());
    }
    assert(n != "makefile"@) by {
        assert("pkcs12"@.len() != "makefile"@.len());
    }
    assert(n != "javascript"@) by {
        assert("pkcs12"@.len() != "javascript"@.len());
    }
    assert(n != "python-script"@) by {
        assert("pkcs12"@.len() != "python-script"@.len());
    }
    assert(n != "ruby-script"@) by {
        assert("pkcs12"@.len() != "ruby-script"@.len());
    }
    assert(n != "perl-script"@) by {
        assert("pkcs12"@.len() != "perl-script"@.len());
    }
    assert(n != "php-script"@) by {
        assert("pkcs12"@.len() != "php-script"@.len());
    }
    assert(n != "apple-script"@) by {
        assert("pkcs12"@.len() != "apple-script"@.len());
    }
    assert(n != "assembly-source"@) by {
        assert("pkcs12"@.len() != "assembly-source"@.len());
    }
    assert(n != "data"@) by {
        assert("pkcs12"@.len() != "data"@.len());
    }
    assert(n != "directory"@) by {
        assert("pkcs12"@.len() != "directory"@.len());
    }
    assert(n != "folder"@) by {
        assert("pkcs12"@[0] != "folder"@[0]);
    }
    assert(n != "symlink"@) by {
        assert("pkcs12"@.len() != "symlink"@.len());
    }
    assert(n != "executable"@) by {
        assert("pkcs12"@.len() != "executable"@.len());
    }
    assert(n != "unix-executable"@) by {
        assert("pkcs12"@.len() != "unix-executable"@.len());
    }
    assert(n != "app-bundle"@) by {
        assert("pkcs12"@.len() != "app-bundle"@.len());
    }
    assert(n != "framework"@) by {
        assert("pkcs12"@.len() != "framework"@.len());
    }
    assert(n != "disk-image"@) by {
        assert("pkcs12"@.len() != "disk-image"@.len());
    }
    assert(n != "volume"@) by {
        assert("pkcs12"@[0] != "volume"@[0]);
    }
    assert(n != "mount-point"@) by {
        assert("pkcs12"@.len() != "mount-point"@.len());
    }
    assert(n != "alias-file"@) by {
        assert("pkcs12"@.len() != "alias-file"@.len());
    }
    assert(n != "3d-content"@) by {
        assert("pkcs12"@.len() != "3d-content"@.len());
    }
    assert(n != "usd"@) by {
        assert("pkcs12"@.len() != "usd"@.len());
    }
    assert(n != "usdz"@) by {
        assert("pkcs12"@.len() != "usdz"@.len());
    }
    assert(n != "reality-file"@) by {
        assert("pkcs12"@.len() != "reality-file"@.len());
    }
    assert(n != "scenekit-scene"@) by {
        assert("pkcs12"@.len() != "scenekit-scene"@.len());
    }
    assert(n != "font"@) by {
        assert("pkcs12"@.len() != "font"@.len());
    }
    assert(parse_spec(n) == Some(SuperType::Pkcs12));
}

proof fn lemma_display_parse_x509certificate()
    ensures
        parse_spec(normalized(name_spec(SuperType::X509Certificate))) == Some(SuperType::X509Certificate),
{
    reveal_strlit("x509-certificate");
    reveal_strlit("text");
    reveal_strlit("plain-text");
    reveal_strlit("csv");
    reveal_strlit("json");
    reveal_strlit("xml");
    reveal_strlit("yaml");
    reveal_strlit("html");
    reveal_strlit("markdown");
    reveal_strlit("rtf");
    reveal_strlit("image");
    reveal_strlit("raw-image");
    reveal_strlit("png");
    reveal_strlit("jpeg");
    reveal_strlit("gif");
    reveal_strlit("tiff");
    reveal_strlit("svg");
    reveal_strlit("webp");
    reveal_strlit("heic");
    reveal_strlit("heif");
    reveal_strlit("bmp");
    reveal_strlit("audio");
    reveal_strlit("mp3");
    reveal_strlit("wav");
    reveal_strlit("aiff");
    reveal_strlit("midi");
    reveal_strlit("mp4-audio");
    reveal_strlit("apple-protected-mp4-audio");
    reveal_strlit("flac");
    reveal_strlit("ogg-audio");
    reveal_strlit("ac3-audio");
    reveal_strlit("aac-audio");
    reveal_strlit("video");
    reveal_strlit("mpeg2-transport-stream");
    reveal_strlit("movie");
    reveal_strlit("quicktime-movie");
    reveal_strlit("mp4-movie");
    reveal_strlit("apple-protected-mp4-video");
    reveal_strlit("mpeg");
    reveal_strlit("mpeg2-video");
    reveal_strlit("avi");
    reveal_strlit("dv-movie");
    reveal_strlit("real-media");
    reveal_strlit("real-audio");
    reveal_strlit("webm");
    reveal_strlit("matroska");
    reveal_strlit("m3u-playlist");
    reveal_strlit("archive");
    reveal_strlit("zip");
    reveal_strlit("gzip");
    reveal_strlit("tar");
    reveal_strlit("bz2");
    reveal_strlit("apple-archive");
    reveal_strlit("sourcecode");
    reveal_strlit("c-source");
    reveal_strlit("c-header");
    reveal_strlit("cpp-source");
    reveal_strlit("cpp-header");
    reveal_strlit("objc-source");
    reveal_strlit("objc-plus-plus-source");
    reveal_strlit("swift-source");
    reveal_strlit("shell");
    reveal_strlit("makefile");
    reveal_strlit("javascript");
    reveal_strlit("python-script");
    reveal_strlit("ruby-script");
    reveal_strlit("perl-script");
    reveal_strlit("php-script");
    reveal_strlit("apple-script");
    reveal_strlit("assembly-source");
    reveal_strlit("data");
    reveal_strlit("directory");
    reveal_strlit("folder");
    reveal_strlit("symlink");
    reveal_strlit("executable");
    reveal_strlit("unix-executable");
    reveal_strlit("app-bundle");
    reveal_strlit("framework");
    reveal_strlit("disk-image");
    reveal_strlit("volume");
    reveal_strlit("mount-point");
    reveal_strlit("alias-file");
    reveal_strlit("3d-content");
    reveal_strlit("usd");
    reveal_strlit("usdz");
    reveal_strlit("reality-file");
    reveal_strlit("scenekit-scene");
    reveal_strlit("font");
    reveal_strlit("pkcs12");
    assert(normalized(name_spec(SuperType::X509Certificate)) =~= "x509-certificate"@);
    let n = normalized(name_spec(SuperType::X509Certificate));
    assert(n != "text"@) by {
        assert("x509-certificate"@.len() != "text"@.len());
    }
    assert(n != "plain-text"@) by {
        assert("x509-certificate"@.len() != "plain-text"@.len());
    }
    assert(n != "csv"@) by {
        assert("x509-certificate"@.len() != "csv"@.len());
    }
    assert(n != "json"@) by {
        assert("x509-certificate"@.len() != "json"@.len());
    }
    assert(n != "xml"@) by {
        assert("x509-certificate"@.len() != "xml"@.len());
    }
    assert(n != "yaml"@) by {
        assert("x509-certificate"@.len() != "yaml"@.len());
    }
    assert(n != "html"@) by {
        assert("x509-certificate"@.len() != "html"@.len());
    }
    assert(n != "markdown"@) by {
        assert("x509-certificate"@.len() != "markdown"@.len());
    }
    assert(n != "rtf"@) by {
        assert("x509-certificate"@.len() != "rtf"@.len());
    }
    assert(n != "image"@) by {
        assert("x509-certificate"@.len() != "image"@.len());
    }
    assert(n != "raw-image"@) by {
        assert("x509-certificate"@.len() != "raw-image"@.len());
    }
    assert(n != "png"@) by {
        assert("x509-certificate"@.len() != "png"@.len());
    }
    assert(n != "jpeg"@) by {
        assert("x509-certificate"@.len() != "jpeg"@.len());
    }
    assert(n != "gif"@) by {
        assert("x509-certificate"@.len() != "gif"@.len());
    }
    assert(n != "tiff"@) by {
        assert("x509-certificate"@.len() != "tiff"@.len());
    }
    assert(n != "svg"@) by {
        assert("x509-certificate"@.len() != "svg"@.len());
    }
    assert(n != "webp"@) by {
        assert("x509-certificate"@.len() != "webp"@.len());
    }
    assert(n != "heic"@) by {
        assert("x509-certificate"@.len() != "heic"@.len());
    }
    assert(n != "heif"@) by {
        assert("x509-certificate"@.len() != "heif"@.len());
    }
    assert(n != "bmp"@) by {
        assert("x509-certificate"@.len() != "bmp"@.len());
    }
    assert(n != "audio"@) by {
        assert("x509-certificate"@.len() != "audio"@.len());
    }
    assert(n != "mp3"@) by {
        assert("x509-certificate"@.len() != "mp3"@.len());
    }
    assert(n != "wav"@) by {
        assert("x509-certificate"@.len() != "wav"@.len());
    }
    assert(n != "aiff"@) by {
        assert("x509-certificate"@.len() != "aiff"@.len());
    }
    assert(n != "midi"@) by {
        assert("x509-certificate"@.len() != "midi"@.len());
    }
    assert(n != "mp4-audio"@) by {
        assert("x509-certificate"@.len() != "mp4-audio"@.len());
    }
    assert(n != "apple-protected-mp4-audio"@) by {
        assert("x509-certificate"@.len() != "apple-protected-mp4-audio"@.len());
    }
    assert(n != "flac"@) by {
        assert("x509-certificate"@.len() != "flac"@.len());
    }
    assert(n != "ogg-audio"@) by {
        assert("x509-certificate"@.len() != "ogg-audio"@.len());
    }
    assert(n != "ac3-audio"@) by {
        assert("x509-certificate"@.len() != "ac3-audio"@.len());
    }
    assert(n != "aac-audio"@) by {
        assert("x509-certificate"@.len() != "aac-audio"@.len());
    }
    assert(n != "video"@) by {
        assert("x509-certificate"@.len() != "video"@.len());
    }
    assert(n != "mpeg2-transport-stream"@) by {
        assert("x509-certificate"@.len() != "mpeg2-transport-stream"@.len());
    }
    assert(n != "movie"@) by {
        assert("x509-certificate"@.len() != "movie"@.len());
    }
    assert(n != "quicktime-movie"@) by {
        assert("x509-certificate"@.len() != "quicktime-movie"@.len());
    }
    assert(n != "mp4-movie"@) by {
        assert("x509-certificate"@.len() != "mp4-movie"@.len());
    }
    assert(n != "apple-protected-mp4-video"@) by {
        assert("x509-certificate"@.len() != "apple-protected-mp4-video"@.len());
    }
    assert(n != "mpeg"@) by {
        assert("x509-certificate"@.len() != "mpeg"@.len());
    }
    assert(n != "mpeg2-video"@) by {
        assert("x509-certificate"@.len() != "mpeg2-video"@.len());
    }
    assert(n != "avi"@) by {
        assert("x509-certificate"@.len() != "avi"@.len());
    }
    assert(n != "dv-movie"@) by {
        assert("x509-certificate"@.len() != "dv-movie"@.len());
    }
    assert(n != "real-media"@) by {
        assert("x509-certificate"@.len() != "real-media"@.len());
    }
    assert(n != "real-audio"@) by {
        assert("x509-certificate"@.len() != "real-audio"@.len());
    }
    assert(n != "webm"@) by {
        assert("x509-certificate"@.len() != "webm"@.len());
    }
    assert(n != "matroska"@) by {
        assert("x509-certificate"@.len() != "matroska"@.len());
    }
    assert(n != "m3u-playlist"@) by {
        assert("x509-certificate"@.len() != "m3u-playlist"@.len());
    }
    assert(n != "archive"@) by {
        assert("x509-certificate"@.len() != "archive"@.len());
    }
    assert(n != "zip"@) by {
        assert("x509-certificate"@.len() != "zip"@.len());
    }
    assert(n != "gzip"@) by {
        assert("x509-certificate"@.len() != "gzip"@.len());
    }
    assert(n != "tar"@) by {
        assert("x509-certificate"@.len() != "tar"@.len());
    }
    assert(n != "bz2"@) by {
        assert("x509-certificate"@.len() != "bz2"@.len());
    }
    assert(n != "apple-archive"@) by {
        assert("x509-certificate"@.len() != "apple-archive"@.len());
    }
    assert(n != "sourcecode"@) by {
        assert("x509-certificate"@.len() != "sourcecode"@.len());
    }
    assert(n != "c-source"@) by {
        assert("x509-certificate"@.len() != "c-source"@.len());
    }
    assert(n != "c-header"@) by {
        assert("x509-certificate"@.len() != "c-header"@.len());
    }
    assert(n != "cpp-source"@) by {
        assert("x509-certificate"@.len() != "cpp-source"@.len());
    }
    assert(n != "cpp-header"@) by {
        assert("x509-certificate"@.len() != "cpp-header"@.len());
    }
    assert(n != "objc-source"@) by {
        assert("x509-certificate"@.len() != "objc-source"@.len());
    }
    assert(n != "objc-plus-plus-source"@) by {
        assert("x509-certificate"@.len() != "objc-plus-plus-source"@.len());
    }
    assert(n != "swift-source"@) by {
        assert("x509-certificate"@.len() != "swift-source"@.len());
    }
    assert(n != "shell"@) by {
        assert("x509-certificate"@.len() != "shell"@.len());
    }
    assert(n != "makefile"@) by {
        assert("x509-certificate"@.len() != "makefile"@.len());
    }
    assert(n != "javascript"@) by {
        assert("x509-certificate"@.len() != "javascript"@.len());
    }
    assert(n != "python-script"@) by {
        assert("x509-certificate"@.len() != "python-script"@.len());
    }
    assert(n != "ruby-script"@) by {
        assert("x509-certificate"@.len() != "ruby-script"@.len());
    }
    assert(n != "perl-script"@) by {
        assert("x509-certificate"@.len() != "perl-script"@.len());
    }
    assert(n != "php-script"@) by {
        assert("x509-certificate"@.len() != "php-script"@.len());
    }
    assert(n != "apple-script"@) by {
        assert("x509-certificate"@.len() != "apple-script"@.len());
    }
    assert(n != "assembly-source"@) by {
        assert("x509-certificate"@.len() != "assembly-source"@.len());
    }
    assert(n != "data"@) by {
        assert("x509-certificate"@.len() != "data"@.len());
    }
    assert(n != "directory"@) by {
        assert("x509-certificate"@.len() != "directory"@.len());
    }
    assert(n != "folder"@) by {
        assert("x509-certificate"@.len() != "folder"@.len());
    }
    assert(n != "symlink"@) by {
        assert("x509-certificate"@.len() != "symlink"@.len());
    }
    assert(n != "executable"@) by {
        assert("x509-certificate"@.len() != "executable"@.len());
    }
    assert(n != "unix-executable"@) by {
        assert("x509-certificate"@.len() != "unix-executable"@.len());
    }
    assert(n != "app-bundle"@) by {
        assert("x509-certificate"@.len() != "app-bundle"@.len());
    }
    assert(n != "framework"@) by {
        assert("x509-certificate"@.len() != "framework"@.len());
    }
    assert(n != "disk-image"@) by {
        assert("x509-certificate"@.len() != "disk-image"@.len());
    }
    assert(n != "volume"@) by {
        assert("x509-certificate"@.len() != "volume"@.len());
    }
    assert(n != "mount-point"@) by {
        assert("x509-certificate"@.len() != "mount-point"@.len());
    }
    assert(n != "alias-file"@) by {
        assert("x509-certificate"@.len() != "alias-file"@.len());
    }
    assert(n != "3d-content"@) by {
        assert("x509-certificate"@.len() != "3d-content"@.len());
    }
    assert(n != "usd"@) by {
        assert("x509-certificate"@.len() != "usd"@.len());
    }
    assert(n != "usdz"@) by {
        assert("x509-certificate"@.len() != "usdz"@.len());
    }
    assert(n != "reality-file"@) by {
        assert("x509-certificate"@.len() != "reality-file"@.len());
    }
    assert(n != "scenekit-scene"@) by {
        assert("x509-certificate"@.len() != "scenekit-scene"@.len());
    }
    assert(n != "font"@) by {
        assert("x509-certificate"@.len() != "font"@.len());
    }
    assert(n != "pkcs12"@) by {
        assert("x509-certificate"@.len() != "pkcs12"@.len());
    }
    assert(parse_spec(n) == Some(SuperType::X509Certificate));
}

proof fn lemma_display_parse_url()
    ensures
        parse_spec(normalized(name_spec(SuperType::Url))) == Some(SuperType::Url),
{
    reveal_strlit("url");
    reveal_strlit("text");
    reveal_strlit("plain-text");
    reveal_strlit("csv");
    reveal_strlit("json");
    reveal_strlit("xml");
    reveal_strlit("yaml");
    reveal_strlit("html");
    reveal_strlit("markdown");
    reveal_strlit("rtf");
    reveal_strlit("image");
    reveal_strlit("raw-image");
    reveal_strlit("png");
    reveal_strlit("jpeg");
    reveal_strlit("gif");
    reveal_strlit("tiff");
    reveal_strlit("svg");
    reveal_strlit("webp");
    reveal_strlit("heic");
    reveal_strlit("heif");
    reveal_strlit("bmp");
    reveal_strlit("audio");
    reveal_strlit("mp3");
    reveal_strlit("wav");
    reveal_strlit("aiff");
    reveal_strlit("midi");
    reveal_strlit("mp4-audio");
    reveal_strlit("apple-protected-mp4-audio");
    reveal_strlit("flac");
    reveal_strlit("ogg-audio");
    reveal_strlit("ac3-audio");
    reveal_strlit("aac-audio");
    reveal_strlit("video");
    reveal_strlit("mpeg2-transport-stream");
    reveal_strlit("movie");
    reveal_strlit("quicktime-movie");
    reveal_strlit("mp4-movie");
    reveal_strlit("apple-protected-mp4-video");
    reveal_strlit("mpeg");
    reveal_strlit("mpeg2-video");
    reveal_strlit("avi");
    reveal_strlit("dv-movie");
    reveal_strlit("real-media");
    reveal_strlit("real-audio");
    reveal_strlit("webm");
    reveal_strlit("matroska");
    reveal_strlit("m3u-playlist");
    reveal_strlit("archive");
    reveal_strlit("zip");
    reveal_strlit("gzip");
    reveal_strlit("tar");
    reveal_strlit("bz2");
    reveal_strlit("apple-archive");
    reveal_strlit("sourcecode");
    reveal_strlit("c-source");
    reveal_strlit("c-header");
    reveal_strlit("cpp-source");
    reveal_strlit("cpp-header");
    reveal_strlit("objc-source");
    reveal_strlit("objc-plus-plus-source");
    reveal_strlit("swift-source");
    reveal_strlit("shell");
    reveal_strlit("makefile");
    reveal_strlit("javascript");
    reveal_strlit("python-script");
    reveal_strlit("ruby-script");
    reveal_strlit("perl-script");
    reveal_strlit("php-script");
    reveal_strlit("apple-script");
    reveal_strlit("assembly-source");
    reveal_strlit("data");
    reveal_strlit("directory");
    reveal_strlit("folder");
    reveal_strlit("symlink");
    reveal_strlit("executable");
    reveal_strlit("unix-executable");
    reveal_strlit("app-bundle");
    reveal_strlit("framework");
    reveal_strlit("disk-image");
    reveal_strlit("volume");
    reveal_strlit("mount-point");
    reveal_strlit("alias-file");
    reveal_strlit("3d-content");
    reveal_strlit("usd");
    reveal_strlit("usdz");
    reveal_strlit("reality-file");
    reveal_strlit("scenekit-scene");
    reveal_strlit("font");
    reveal_strlit("pkcs12");
    reveal_strlit("x509-certificate");
    assert(normalized(name_spec(SuperType::Url)) =~= "url"@);
    let n = normalized(name_spec(SuperType::Url));
    assert(n != "text"@) by {
        assert("url"@.len() != "text"@.len());
    }
    assert(n != "plain-text"@) by {
        assert("url"@.len() != "plain-text"@.len());
    }
    assert(n != "csv"@) by {
        assert("url"@[0] != "csv"@[0]);
    }
    assert(n != "json"@) by {
        assert("url"@.len() != "json"@.len());
    }
    assert(n != "xml"@) by {
        assert("url"@[0] != "xml"@[0]);
    }
    assert(n != "yaml"@) by {
        assert("url"@.len() != "yaml"@.len());
    }
    assert(n != "html"@) by {
        assert("url"@.len() != "html"@.len());
    }
    assert(n != "markdown"@) by {
        assert("url"@.len() != "markdown"@.len());
    }
    assert(n != "rtf"@) by {
        assert("url"@[0] != "rtf"@[0]);
    }
    assert(n != "image"@) by {
        assert("url"@.len() != "image"@.len());
    }
    assert(n != "raw-image"@) by {
        assert("url"@.len() != "raw-image"@.len());
    }
    assert(n != "png"@) by {
        assert("url"@[0] != "png"@[0]);
    }
    assert(n != "jpeg"@) by {
        assert("url"@.len() != "jpeg"@.len());
    }
    assert(n != "gif"@) by {
        assert("url"@[0] != "gif"@[0]);
    }
    assert(n != "tiff"@) by {
        assert("url"@.len() != "tiff"@.len());
    }
    assert(n != "svg"@) by {
        assert("url"@[0] != "svg"@[0]);
    }
    assert(n != "webp"@) by {
        assert("url"@.len() != "webp"@.len());
    }
    assert(n != "heic"@) by {
        assert("url"@.len() != "heic"@.len());
    }
    assert(n != "heif"@) by {
        assert("url"@.len() != "heif"@.len());
    }
    assert(n != "bmp"@) by {
        assert("url"@[0] != "bmp"@[0]);
    }
    assert(n != "audio"@) by {
        assert("url"@.len() != "audio"@.len());
    }
    assert(n != "mp3"@) by {
        assert("url"@[0] != "mp3"@[0]);
    }
    assert(n != "wav"@) by {
        assert("url"@[0] != "wav"@[0]);
    }
    assert(n != "aiff"@) by {
        assert("url"@.len() != "aiff"@.len());
    }
    assert(n != "midi"@) by {
        assert("url"@.len() != "midi"@.len());
    }
    assert(n != "mp4-audio"@) by {
        assert("url"@.len() != "mp4-audio"@.len());
    }
    assert(n != "apple-protected-mp4-audio"@) by {
        assert("url"@.len() != "apple-protected-mp4-audio"@.len());
    }
    assert(n != "flac"@) by {
        assert("url"@.len() != "flac"@.len());
    }
    assert(n != "ogg-audio"@) by {
        assert("url"@.len() != "ogg-audio"@.len());
    }
    assert(n != "ac3-audio"@) by {
        assert("url"@.len() != "ac3-audio"@.len());
    }
    assert(n != "aac-audio"@) by {
        assert("url"@.len() != "aac-audio"@.len());
    }
    assert(n != "video"@) by {
        assert("url"@.len() != "video"@.len());
    }
    assert(n != "mpeg2-transport-stream"@) by {
        assert("url"@.len() != "mpeg2-transport-stream"@.len());
    }
    assert(n != "movie"@) by {
        assert("url"@.len() != "movie"@.len());
    }
    assert(n != "quicktime-movie"@) by {
        assert("url"@.len() != "quicktime-movie"@.len());
    }
    assert(n != "mp4-movie"@) by {
        assert("url"@.len() != "mp4-movie"@.len());
    }
    assert(n != "apple-protected-mp4-video"@) by {
        assert("url"@.len() != "apple-protected-mp4-video"@.len());
    }
    assert(n != "mpeg"@) by {
        assert("url"@.len() != "mpeg"@.len());
    }
    assert(n != "mpeg2-video"@) by {
        assert("url"@.len() != "mpeg2-video"@.len());
    }
    assert(n != "avi"@) by {
        assert("url"@[0] != "avi"@[0]);
    }
    assert(n != "dv-movie"@) by {
        assert("url"@.len() != "dv-movie"@.len());
    }
    assert(n != "real-media"@) by {
        assert("url"@.len() != "real-media"@.len());
    }
    assert(n != "real-audio"@) by {
        assert("url"@.len() != "real-audio"@.len());
    }
    assert(n != "webm"@) by {
        assert("url"@.len() != "webm"@.len());
    }
    assert(n != "matroska"@) by {
        assert("url"@.len() != "matroska"@.len());
    }
    assert(n != "m3u-playlist"@) by {
        assert("url"@.len() != "m3u-playlist"@.len());
    }
    assert(n != "archive"@) by {
        assert("url"@.len() != "archive"@.len());
    }
    assert(n != "zip"@) by {
        assert("url"@[0] != "zip"@[0]);
    }
    assert(n != "gzip"@) by {
        assert("url"@.len() != "gzip"@.len());
    }
    assert(n != "tar"@) by {
        assert("url"@[0] != "tar"@[0]);
    }
    assert(n != "bz2"@) by {
        assert("url"@[0] != "bz2"@[0]);
    }
    assert(n != "apple-archive"@) by {
        assert("url"@.len() != "apple-archive"@.len());
    }
    assert(n != "sourcecode"@) by {
        assert("url"@.len() != "sourcecode"@.len());
    }
    assert(n != "c-source"@) by {
        assert("url"@.len() != "c-source"@.len());
    }
    assert(n != "c-header"@) by {
        assert("url"@.len() != "c-header"@.len());
    }
    assert(n != "cpp-source"@) by {
        assert("url"@.len() != "cpp-source"@.len());
    }
    assert(n != "cpp-header"@) by {
        assert("url"@.len() != "cpp-header"@.len());
    }
    assert(n != "objc-source"@) by {
        assert("url"@.len() != "objc-source"@.len());
    }
    assert(n != "objc-plus-plus-source"@) by {
        assert("url"@.len() != "objc-plus-plus-source"@.len());
    }
    assert(n != "swift-source"@) by {
        assert("url"@.len() != "swift-source"@.len());
    }
    assert(n != "shell"@) by {
        assert("url"@.len() != "shell"@.len());
    }
    assert(n != "makefile"@) by {
        assert("url"@.len() != "makefile"@.len());
    }
    assert(n != "javascript"@) by {
        assert("url"@.len() != "javascript"@.len());
    }
    assert(n != "python-script"@) by {
        assert("url"@.len() != "python-script"@.len());
    }
    assert(n != "ruby-script"@) by {
        assert("url"@.len() != "ruby-script"@.len());
    }
    assert(n != "perl-script"@) by {
        assert("url"@.len() != "perl-script"@.len());
    }
    assert(n != "php-script"@) by {
        assert("url"@.len() != "php-script"@.len());
    }
    assert(n != "apple-script"@) by {
        assert("url"@.len() != "apple-script"@.len());
    }
    assert(n != "assembly-source"@) by {
        assert("url"@.len() != "assembly-source"@.len());
    }
    assert(n != "data"@) by {
        assert("url"@.len() != "data"@.len());
    }
    assert(n != "directory"@) by {
        assert("url"@.len() != "directory"@.len());
    }
    assert(n != "folder"@) by {
        assert("url"@.len() != "folder"@.len());
    }
    assert(n != "symlink"@) by {
        assert("url"@.len() != "symlink"@.len());
    }
    assert(n != "executable"@) by {
        assert("url"@.len() != "executable"@.len());
    }
    assert(n != "unix-executable"@) by {
        assert("url"@.len() != "unix-executable"@.len());
    }
    assert(n != "app-bundle"@) by {
        assert("url"@.len() != "app-bundle"@.len());
    }
    assert(n != "framework"@) by {
        assert("url"@.len() != "framework"@.len());
    }
    assert(n != "disk-image"@) by {
        assert("url"@.len() != "disk-image"@.len());
    }
    assert(n != "volume"@) by {
        assert("url"@.len() != "volume"@.len());
    }
    assert(n != "mount-point"@) by {
        assert("url"@.len() != "mount-point"@.len());
    }
    assert(n != "alias-file"@) by {
        assert("url"@.len() != "alias-file"@.len());
    }
    assert(n != "3d-content"@) by {
        assert("url"@.len() != "3d-content"@.len());
    }
    assert(n != "usd"@) by {
        assert("url"@[1] != "usd"@[1]);
    }
    assert(n != "usdz"@) by {
        assert("url"@.len() != "usdz"@.len());
    }
    assert(n != "reality-file"@) by {
        assert("url"@.len() != "reality-file"@.len());
    }
    assert(n != "scenekit-scene"@) by {
        assert("url"@.len() != "scenekit-scene"@.len());
    }
    assert(n != "font"@) by {
        assert("url"@.len() != "font"@.len());
    }
    assert(n != "pkcs12"@) by {
        assert("url"@.len() != "pkcs12"@.len());
    }
    assert(n != "x509-certificate"@) by {
        assert("url"@.len() != "x509-certificate"@.len());
    }
    assert(parse_spec(n) == Some(SuperType::Url));
}

proof fn lemma_display_parse_fileurl()
    ensures
        parse_spec(normalized(name_spec(SuperType::FileUrl))) == Some(SuperType::FileUrl),
{
    reveal_strlit("file-url");
    reveal_strlit("text");
    reveal_strlit("plain-text");
    reveal_strlit("csv");
    reveal_strlit("json");
    reveal_strlit("xml");
    reveal_strlit("yaml");
    reveal_strlit("html");
    reveal_strlit("markdown");
    reveal_strlit("rtf");
    reveal_strlit("image");
    reveal_strlit("raw-image");
    reveal_strlit("png");
    reveal_strlit("jpeg");
    reveal_strlit("gif");
    reveal_strlit("tiff");
    reveal_strlit("svg");
    reveal_strlit("webp");
    reveal_strlit("heic");
    reveal_strlit("heif");
    reveal_strlit("bmp");
    reveal_strlit("audio");
    reveal_strlit("mp3");
    reveal_strlit("wav");
    reveal_strlit("aiff");
    reveal_strlit("midi");
    reveal_strlit("mp4-audio");
    reveal_strlit("apple-protected-mp4-audio");
    reveal_strlit("flac");
    reveal_strlit("ogg-audio");
    reveal_strlit("ac3-audio");
    reveal_strlit("aac-audio");
    reveal_strlit("video");
    reveal_strlit("mpeg2-transport-stream");
    reveal_strlit("movie");
    reveal_strlit("quicktime-movie");
    reveal_strlit("mp4-movie");
    reveal_strlit("apple-protected-mp4-video");
    reveal_strlit("mpeg");
    reveal_strlit("mpeg2-video");
    reveal_strlit("avi");
    reveal_strlit("dv-movie");
    reveal_strlit("real-media");
    reveal_strlit("real-audio");
    reveal_strlit("webm");
    reveal_strlit("matroska");
    reveal_strlit("m3u-playlist");
    reveal_strlit("archive");
    reveal_strlit("zip");
    reveal_strlit("gzip");
    reveal_strlit("tar");
    reveal_strlit("bz2");
    reveal_strlit("apple-archive");
    reveal_strlit("sourcecode");
    reveal_strlit("c-source");
    reveal_strlit("c-header");
    reveal_strlit("cpp-source");
    reveal_strlit("cpp-header");
    reveal_strlit("objc-source");
    reveal_strlit("objc-plus-plus-source");
    reveal_strlit("swift-source");
    reveal_strlit("shell");
    reveal_strlit("makefile");
    reveal_strlit("javascript");
    reveal_strlit("python-script");
    reveal_strlit("ruby-script");
    reveal_strlit("perl-script");
    reveal_strlit("php-script");
    reveal_strlit("apple-script");
    reveal_strlit("assembly-source");
    reveal_strlit("data");
    reveal_strlit("directory");
    reveal_strlit("folder");
    reveal_strlit("symlink");
    reveal_strlit("executable");
    reveal_strlit("unix-executable");
    reveal_strlit("app-bundle");
    reveal_strlit("framework");
    reveal_strlit("disk-image");
    reveal_strlit("volume");
    reveal_strlit("mount-point");
    reveal_strlit("alias-file");
    reveal_strlit("3d-content");
    reveal_strlit("usd");
    reveal_strlit("usdz");
    reveal_strlit("reality-file");
    reveal_strlit("scenekit-scene");
    reveal_strlit("font");
    reveal_strlit("pkcs12");
    reveal_strlit("x509-certificate");
    reveal_strlit("url");
    assert(normalized(name_spec(SuperType::FileUrl)) =~= "file-url"@);
    let n = normalized(name_spec(SuperType::FileUrl));
    assert(n != "text"@) by {
        assert("file-url"@.len() != "text"@.len());
    }
    assert(n != "plain-text"@) by {
        assert("file-url"@.len() != "plain-text"@.len());
    }
    assert(n != "csv"@) by {
        assert("file-url"@.len() != "csv"@.len());
    }
    assert(n != "json"@) by {
        assert("file-url"@.len() != "json"@.len());
    }
    assert(n != "xml"@) by {
        assert("file-url"@.len() != "xml"@.len());
    }
    assert(n != "yaml"@) by {
        assert("file-url"@.len() != "yaml"@.len());
    }
    assert(n != "html"@) by {
        assert("file-url"@.len() != "html"@.len());
    }
    assert(n != "markdown"@) by {
        assert("file-url"@[0] != "markdown"@[0]);
    }
    assert(n != "rtf"@) by {
        assert("file-url"@.len() != "rtf"@.len());
    }
    assert(n != "image"@) by {
        assert("file-url"@.len() != "image"@.len());
    }
    assert(n != "raw-image"@) by {
        assert("file-url"@.len() != "raw-image"@.len());
    }
    assert(n != "png"@) by {
        assert("file-url"@.len() != "png"@.len());
    }
    assert(n != "jpeg"@) by {
        assert("file-url"@.len() != "jpeg"@.len());
    }
    assert(n != "gif"@) by {
        assert("file-url"@.len() != "gif"@.len());
    }
    assert(n != "tiff"@) by {
        assert("file-url"@.len() != "tiff"@.len());
    }
    assert(n != "svg"@) by {
        assert("file-url"@.len() != "svg"@.len());
    }
    assert(n != "webp"@) by {
        assert("file-url"@.len() != "webp"@.len());
    }
    assert(n != "heic"@) by {
        assert("file-url"@.len() != "heic"@.len());
    }
    assert(n != "heif"@) by {
        assert("file-url"@.len() != "heif"@.len());
    }
    assert(n != "bmp"@) by {
        assert("file-url"@.len() != "bmp"@.len());
    }
    assert(n != "audio"@) by {
        assert("file-url"@.len() != "audio"@.len());
    }
    assert(n != "mp3"@) by {
        assert("file-url"@.len() != "mp3"@.len());
    }
    assert(n != "wav"@) by {
        assert("file-url"@.len() != "wav"@.len());
    }
    assert(n != "aiff"@) by {
        assert("file-url"@.len() != "aiff"@.len());
    }
    assert(n != "midi"@) by {
        assert("file-url"@.len() != "midi"@.len());
    }
    assert(n != "mp4-audio"@) by {
        assert("file-url"@.len() != "mp4-audio"@.len());
    }
    assert(n != "apple-protected-mp4-audio"@) by {
        assert("file-url"@.len() != "apple-protected-mp4-audio"@.len());
    }
    assert(n != "flac"@) by {
        assert("file-url"@.len() != "flac"@.len());
    }
    assert(n != "ogg-audio"@) by {
        assert("file-url"@.len() != "ogg-audio"@.len());
    }
    assert(n != "ac3-audio"@) by {
        assert("file-url"@.len() != "ac3-audio"@.len());
    }
    assert(n != "aac-audio"@) by {
        assert("file-url"@.len() != "aac-audio"@.len());
    }
    assert(n != "video"@) by {
        assert("file-url"@.len() != "video"@.len());
    }
    assert(n != "mpeg2-transport-stream"@) by {
        assert("file-url"@.len() != "mpeg2-transport-stream"@.len());
    }
    assert(n != "movie"@) by {
        assert("file-url"@.len() != "movie"@.len());
    }
    assert(n != "quicktime-movie"@) by {
        assert("file-url"@.len() != "quicktime-movie"@.len());
    }
    assert(n != "mp4-movie"@) by {
        assert("file-url"@.len() != "mp4-movie"@.len());
    }
    assert(n != "apple-protected-mp4-video"@) by {
        assert("file-url"@.len() != "apple-protected-mp4-video"@.len());
    }
    assert(n != "mpeg"@) by {
        assert("file-url"@.len() != "mpeg"@.len());
    }
    assert(n != "mpeg2-video"@) by {
        assert("file-url"@.len() != "mpeg2-video"@.len());
    }
    assert(n != "avi"@) by {
        assert("file-url"@.len() != "avi"@.len());
    }
    assert(n != "dv-movie"@) by {
        assert("file-url"@[0] != "dv-movie"@[0]);
    }
    assert(n != "real-media"@) by {
        assert("file-url"@.len() != "real-media"@.len());
    }
    assert(n != "real-audio"@) by {
        assert("file-url"@.len() != "real-audio"@.len());
    }
    assert(n != "webm"@) by {
        assert("file-url"@.len() != "webm"@.len());
    }
    assert(n != "matroska"@) by {
        assert("file-url"@[0] != "matroska"@[0]);
    }
    assert(n != "m3u-playlist"@) by {
        assert("file-url"@.len() != "m3u-playlist"@.len());
    }
    assert(n != "archive"@) by {
        assert("file-url"@.len() != "archive"@.len());
    }
    assert(n != "zip"@) by {
        assert("file-url"@.len() != "zip"@.len());
    }
    assert(n != "gzip"@) by {
        assert("file-url"@.len() != "gzip"@.len());
    }
    assert(n != "tar"@) by {
        assert("file-url"@.len() != "tar"@.len());
    }
    assert(n != "bz2"@) by {
        assert("file-url"@.len() != "bz2"@.len());
    }
    assert(n != "apple-archive"@) by {
        assert("file-url"@.len() != "apple-archive"@.len());
    }
    assert(n != "sourcecode"@) by {
        assert("file-url"@.len() != "sourcecode"@.len());
    }
    assert(n != "c-source"@) by {
        assert("file-url"@[0] != "c-source"@[0]);
    }
    assert(n != "c-header"@) by {
        assert("file-url"@[0] != "c-header"@[0]);
    }
    assert(n != "cpp-source"@) by {
        assert("file-url"@.len() != "cpp-source"@.len());
    }
    assert(n != "cpp-header"@) by {
        assert("file-url"@.len() != "cpp-header"@.len());
    }
    assert(n != "objc-source"@) by {
        assert("file-url"@.len() != "objc-source"@.len());
    }
    assert(n != "objc-plus-plus-source"@) by {
        assert("file-url"@.len() != "objc-plus-plus-source"@.len());
    }
    assert(n != "swift-source"@) by {
        assert("file-url"@.len() != "swift-source"@.len());
    }
    assert(n != "shell"@) by {
        assert("file-url"@.len() != "shell"@.len());
    }
    assert(n != "makefile"@) by {
        assert("file-url"@[0] != "makefile"@[0]);
    }
    assert(n != "javascript"@) by {
        assert("file-url"@.len() != "javascript"@.len());
    }
    assert(n != "python-script"@) by {
        assert("file-url"@.len() != "python-script"@.len());
    }
    assert(n != "ruby-script"@) by {
        assert("file-url"@.len() != "ruby-script"@.len());
    }
    assert(n != "perl-script"@) by {
        assert("file-url"@.len() != "perl-script"@.len());
    }
    assert(n != "php-script"@) by {
        assert("file-url"@.len() != "php-script"@.len());
    }
    assert(n != "apple-script"@) by {
        assert("file-url"@.len() != "apple-script"@.len());
    }
    assert(n != "assembly-source"@) by {
        assert("file-url"@.len() != "assembly-source"@.len());
    }
    assert(n != "data"@) by {
        assert("file-url"@.len() != "data"@.len());
    }
    assert(n != "directory"@) by {
        assert("file-url"@.len() != "directory"@.len());
    }
    assert(n != "folder"@) by {
        assert("file-url"@.len() != "folder"@.len());
    }
    assert(n != "symlink"@) by {
        assert("file-url"@.len() != "symlink"@.len());
    }
    assert(n != "executable"@) by {
        assert("file-url"@.len() != "executable"@.len());
    }
    assert(n != "unix-executable"@) by {
        assert("file-url"@.len() != "unix-executable"@.len());
    }
    assert(n != "app-bundle"@) by {
        assert("file-url"@.len() != "app-bundle"@.len());
    }
    assert(n != "framework"@) by {
        assert("file-url"@.len() != "framework"@.len());
    }
    assert(n != "disk-image"@) by {
        assert("file-url"@.len() != "disk-image"@.len());
    }
    assert(n != "volume"@) by {
        assert("file-url"@.len() != "volume"@.len());
    }
    assert(n != "mount-point"@) by {
        assert("file-url"@.len() != "mount-point"@.len());
    }
    assert(n != "alias-file"@) by {
        assert("file-url"@.len() != "alias-file"@.len());
    }
    assert(n != "3d-content"@) by {
        assert("file-url"@.len() != "3d-content"@.len());
    }
    assert(n != "usd"@) by {
        assert("file-url"@.len() != "usd"@.len());
    }
    assert(n != "usdz"@) by {
        assert("file-url"@.len() != "usdz"@.len());
    }
    assert(n != "reality-file"@) by {
        assert("file-url"@.len() != "reality-file"@.len());
    }
    assert(n != "scenekit-scene"@) by {
        assert("file-url"@.len() != "scenekit-scene"@.len());
    }
    assert(n != "font"@) by {
        assert("file-url"@.len() != "font"@.len());
    }
    assert(n != "pkcs12"@) by {
        assert("file-url"@.len() != "pkcs12"@.len());
    }
    assert(n != "x509-certificate"@) by {
        assert("file-url"@.len() != "x509-certificate"@.len());
    }
    assert(n != "url"@) by {
        assert("file-url"@.len() != "url"@.len());
    }
    assert(parse_spec(n) == Some(SuperType::FileUrl));
}

proof fn lemma_display_parse_urlbookmarkdata()
    ensures
        parse_spec(normalized(name_spec(SuperType::UrlBookmarkData))) == Some(SuperType::UrlBookmarkData),
{
    reveal_strlit("url-bookmark-data");
    reveal_strlit("text");
    reveal_strlit("plain-text");
    reveal_strlit("csv");
    reveal_strlit("json");
    reveal_strlit("xml");
    reveal_strlit("yaml");
    reveal_strlit("html");
    reveal_strlit("markdown");
    reveal_strlit("rtf");
    reveal_strlit("image");
    reveal_strlit("raw-image");
    reveal_strlit("png");
    reveal_strlit("jpeg");
    reveal_strlit("gif");
    reveal_strlit("tiff");
    reveal_strlit("svg");
    reveal_strlit("webp");
    reveal_strlit("heic");
    reveal_strlit("heif");
    reveal_strlit("bmp");
    reveal_strlit("audio");
    reveal_strlit("mp3");
    reveal_strlit("wav");
    reveal_strlit("aiff");
    reveal_strlit("midi");
    reveal_strlit("mp4-audio");
    reveal_strlit("apple-protected-mp4-audio");
    reveal_strlit("flac");
    reveal_strlit("ogg-audio");
    reveal_strlit("ac3-audio");
    reveal_strlit("aac-audio");
    reveal_strlit("video");
    reveal_strlit("mpeg2-transport-stream");
    reveal_strlit("movie");
    reveal_strlit("quicktime-movie");
    reveal_strlit("mp4-movie");
    reveal_strlit("apple-protected-mp4-video");
    reveal_strlit("mpeg");
    reveal_strlit("mpeg2-video");
    reveal_strlit("avi");
    reveal_strlit("dv-movie");
    reveal_strlit("real-media");
    reveal_strlit("real-audio");
    reveal_strlit("webm");
    reveal_strlit("matroska");
    reveal_strlit("m3u-playlist");
    reveal_strlit("archive");
    reveal_strlit("zip");
    reveal_strlit("gzip");
    reveal_strlit("tar");
    reveal_strlit("bz2");
    reveal_strlit("apple-archive");
    reveal_strlit("sourcecode");
    reveal_strlit("c-source");
    reveal_strlit("c-header");
    reveal_strlit("cpp-source");
    reveal_strlit("cpp-header");
    reveal_strlit("objc-source");
    reveal_strlit("objc-plus-plus-source");
    reveal_strlit("swift-source");
    reveal_strlit("shell");
    reveal_strlit("makefile");
    reveal_strlit("javascript");
    reveal_strlit("python-script");
    reveal_strlit("ruby-script");
    reveal_strlit("perl-script");
    reveal_strlit("php-script");
    reveal_strlit("apple-script");
    reveal_strlit("assembly-source");
    reveal_strlit("data");
    reveal_strlit("directory");
    reveal_strlit("folder");
    reveal_strlit("symlink");
    reveal_strlit("executable");
    reveal_strlit("unix-executable");
    reveal_strlit("app-bundle");
    reveal_strlit("framework");
    reveal_strlit("disk-image");
    reveal_strlit("volume");
    reveal_strlit("mount-point");
    reveal_strlit("alias-file");
    reveal_strlit("3d-content");
    reveal_strlit("usd");
    reveal_strlit("usdz");
    reveal_strlit("reality-file");
    reveal_strlit("scenekit-scene");
    reveal_strlit("font");
    reveal_strlit("pkcs12");
    reveal_strlit("x509-certificate");
    reveal_strlit("url");
    reveal_strlit("file-url");
    assert(normalized(name_spec(SuperType::UrlBookmarkData)) =~= "url-bookmark-data"@);
    let n = normalized(name_spec(SuperType::UrlBookmarkData));
    assert(n != "text"@) by {
        assert("url-bookmark-data"@.len() != "text"@.len());
    }
    assert(n != "plain-text"@) by {
        assert("url-bookmark-data"@.len() != "plain-text"@.len());
    }
    assert(n != "csv"@) by {
        assert("url-bookmark-data"@.len() != "csv"@.len());
    }
    assert(n != "json"@) by {
        assert("url-bookmark-data"@.len() != "json"@.len());
    }
    assert(n != "xml"@) by {
        assert("url-bookmark-data"@.len() != "xml"@.len());
    }
    assert(n != "yaml"@) by {
        assert("url-bookmark-data"@.len() != "yaml"@.len());
    }
    assert(n != "html"@) by {
        assert("url-bookmark-data"@.len() != "html"@.len());
    }
    assert(n != "markdown"@) by {
        assert("url-bookmark-data"@.len() != "markdown"@.len());
    }
    assert(n != "rtf"@) by {
        assert("url-bookmark-data"@.len() != "rtf"@.len());
    }
    assert(n != "image"@) by {
        assert("url-bookmark-data"@.len() != "image"@.len());
    }
    assert(n != "raw-image"@) by {
        assert("url-bookmark-data"@.len() != "raw-image"@.len());
    }
    assert(n != "png"@) by {
        assert("url-bookmark-data"@.len() != "png"@.len());
    }
    assert(n != "jpeg"@) by {
        assert("url-bookmark-data"@.len() != "jpeg"@.len());
    }
    assert(n != "gif"@) by {
        assert("url-bookmark-data"@.len() != "gif"@.len());
    }
    assert(n != "tiff"@) by {
        assert("url-bookmark-data"@.len() != "tiff"@.len());
    }
    assert(n != "svg"@) by {
        assert("url-bookmark-data"@.len() != "svg"@.len());
    }
    assert(n != "webp"@) by {
        assert("url-bookmark-data"@.len() != "webp"@.len());
    }
    assert(n != "heic"@) by {
        assert("url-bookmark-data"@.len() != "heic"@.len());
    }
    assert(n != "heif"@) by {
        assert("url-bookmark-data"@.len() != "heif"@.len());
    }
    assert(n != "bmp"@) by {
        assert("url-bookmark-data"@.len() != "bmp"@.len());
    }
    assert(n != "audio"@) by {
        assert("url-bookmark-data"@.len() != "audio"@.len());
    }
    assert(n != "mp3"@) by {
        assert("url-bookmark-data"@.len() != "mp3"@.len());
    }
    assert(n != "wav"@) by {
        assert("url-bookmark-data"@.len() != "wav"@.len());
    }
    assert(n != "aiff"@) by {
        assert("url-bookmark-data"@.len() != "aiff"@.len());
    }
    assert(n != "midi"@) by {
        assert("url-bookmark-data"@.len() != "midi"@.len());
    }
    assert(n != "mp4-audio"@) by {
        assert("url-bookmark-data"@.len() != "mp4-audio"@.len());
    }
    assert(n != "apple-protected-mp4-audio"@) by {
        assert("url-bookmark-data"@.len() != "apple-protected-mp4-audio"@.len());
    }
    assert(n != "flac"@) by {
        assert("url-bookmark-data"@.len() != "flac"@.len());
    }
    assert(n != "ogg-audio"@) by {
        assert("url-bookmark-data"@.len() != "ogg-audio"@.len());
    }
    assert(n != "ac3-audio"@) by {
        assert("url-bookmark-data"@.len() != "ac3-audio"@.len());
    }
    assert(n != "aac-audio"@) by {
        assert("url-bookmark-data"@.len() != "aac-audio"@.len());
    }
    assert(n != "video"@) by {
        assert("url-bookmark-data"@.len() != "video"@.len());
    }
    assert(n != "mpeg2-transport-stream"@) by {
        assert("url-bookmark-data"@.len() != "mpeg2-transport-stream"@.len());
    }
    assert(n != "movie"@) by {
        assert("url-bookmark-data"@.len() != "movie"@.len());
    }
    assert(n != "quicktime-movie"@) by {
        assert("url-bookmark-data"@.len() != "quicktime-movie"@.len());
    }
    assert(n != "mp4-movie"@) by {
        assert("url-bookmark-data"@.len() != "mp4-movie"@.len());
    }
    assert(n != "apple-protected-mp4-video"@) by {
        assert("url-bookmark-data"@.len() != "apple-protected-mp4-video"@.len());
    }
    assert(n != "mpeg"@) by {
        assert("url-bookmark-data"@.len() != "mpeg"@.len());
    }
    assert(n != "mpeg2-video"@) by {
        assert("url-bookmark-data"@.len() != "mpeg2-video"@.len());
    }
    assert(n != "avi"@) by {
        assert("url-bookmark-data"@.len() != "avi"@.len());
    }
    assert(n != "dv-movie"@) by {
        assert("url-bookmark-data"@.len() != "dv-movie"@.len());
    }
    assert(n != "real-media"@) by {
        assert("url-bookmark-data"@.len() != "real-media"@.len());
    }
    assert(n != "real-audio"@) by {
        assert("url-bookmark-data"@.len() != "real-audio"@.len());
    }
    assert(n != "webm"@) by {
        assert("url-bookmark-data"@.len() != "webm"@.len());
    }
    assert(n != "matroska"@) by {
        assert("url-bookmark-data"@.len() != "matroska"@.len());
    }
    assert(n != "m3u-playlist"@) by {
        assert("url-bookmark-data"@.len() != "m3u-playlist"@.len());
    }
    assert(n != "archive"@) by {
        assert("url-bookmark-data"@.len() != "archive"@.len());
    }
    assert(n != "zip"@) by {
        assert("url-bookmark-data"@.len() != "zip"@.len());
    }
    assert(n != "gzip"@) by {
        assert("url-bookmark-data"@.len() != "gzip"@.len());
    }
    assert(n != "tar"@) by {
        assert("url-bookmark-data"@.len() != "tar"@.len());
    }
    assert(n != "bz2"@) by {
        assert("url-bookmark-data"@.len() != "bz2"@.len());
    }
    assert(n != "apple-archive"@) by {
        assert("url-bookmark-data"@.len() != "apple-archive"@.len());
    }
    assert(n != "sourcecode"@) by {
        assert("url-bookmark-data"@.len() != "sourcecode"@.len());
    }
    assert(n != "c-source"@) by {
        assert("url-bookmark-data"@.len() != "c-source"@.len());
    }
    assert(n != "c-header"@) by {
        assert("url-bookmark-data"@.len() != "c-header"@.len());
    }
    assert(n != "cpp-source"@) by {
        assert("url-bookmark-data"@.len() != "cpp-source"@.len());
    }
    assert(n != "cpp-header"@) by {
        assert("url-bookmark-data"@.len() != "cpp-header"@.len());
    }
    assert(n != "objc-source"@) by {
        assert("url-bookmark-data"@.len() != "objc-source"@.len());
    }
    assert(n != "objc-plus-plus-source"@) by {
        assert("url-bookmark-data"@.len() != "objc-plus-plus-source"@.len());
    }
    assert(n != "swift-source"@) by {
        assert("url-bookmark-data"@.len() != "swift-source"@.len());
    }
    assert(n != "shell"@) by {
        assert("url-bookmark-data"@.len() != "shell"@.len());
    }
    assert(n != "makefile"@) by {
        assert("url-bookmark-data"@.len() != "makefile"@.len());
    }
    assert(n != "javascript"@) by {
        assert("url-bookmark-data"@.len() != "javascript"@.len());
    }
    assert(n != "python-script"@) by {
        assert("url-bookmark-data"@.len() != "python-script"@.len());
    }
    assert(n != "ruby-script"@) by {
        assert("url-bookmark-data"@.len() != "ruby-script"@.len());
    }
    assert(n != "perl-script"@) by {
        assert("url-bookmark-data"@.len() != "perl-script"@.len());
    }
    assert(n != "php-script"@) by {
        assert("url-bookmark-data"@.len() != "php-script"@.len());
    }
    assert(n != "apple-script"@) by {
        assert("url-bookmark-data"@.len() != "apple-script"@.len());
    }
    assert(n != "assembly-source"@) by {
        assert("url-bookmark-data"@.len() != "assembly-source"@.len());
    }
    assert(n != "data"@) by {
        assert("url-bookmark-data"@.len() != "data"@.len());
    }
    assert(n != "directory"@) by {
        assert("url-bookmark-data"@.len() != "directory"@.len());
    }
    assert(n != "folder"@) by {
        assert("url-bookmark-data"@.len() != "folder"@.len());
    }
    assert(n != "symlink"@) by {
        assert("url-bookmark-data"@.len() != "symlink"@.len());
    }
    assert(n != "executable"@) by {
        assert("url-bookmark-data"@.len() != "executable"@.len());
    }
    assert(n != "unix-executable"@) by {
        assert("url-bookmark-data"@.len() != "unix-executable"@.len());
    }
    assert(n != "app-bundle"@) by {
        assert("url-bookmark-data"@.len() != "app-bundle"@.len());
    }
    assert(n != "framework"@) by {
        assert("url-bookmark-data"@.len() != "framework"@.len());
    }
    assert(n != "disk-image"@) by {
        assert("url-bookmark-data"@.len() != "disk-image"@.len());
    }
    assert(n != "volume"@) by {
        assert("url-bookmark-data"@.len() != "volume"@.len());
    }
    assert(n != "mount-point"@) by {
        assert("url-bookmark-data"@.len() != "mount-point"@.len());
    }
    assert(n != "alias-file"@) by {
        assert("url-bookmark-data"@.len() != "alias-file"@.len());
    }
    assert(n != "3d-content"@) by {
        assert("url-bookmark-data"@.len() != "3d-content"@.len());
    }
    assert(n != "usd"@) by {
        assert("url-bookmark-data"@.len() != "usd"@.len());
    }
    assert(n != "usdz"@) by {
        assert("url-bookmark-data"@.len() != "usdz"@.len());
    }
    assert(n != "reality-file"@) by {
        assert("url-bookmark-data"@.len() != "reality-file"@.len());
    }
    assert(n != "scenekit-scene"@) by {
        assert("url-bookmark-data"@.len() != "scenekit-scene"@.len());
    }
    assert(n != "font"@) by {
        assert("url-bookmark-data"@.len() != "font"@.len());
    }
    assert(n != "pkcs12"@) by {
        assert("url-bookmark-data"@.len() != "pkcs12"@.len());
    }
    assert(n != "x509-certificate"@) by {
        assert("url-bookmark-data"@.len() != "x509-certificate"@.len());
    }
    assert(n != "url"@) by {
        assert("url-bookmark-data"@.len() != "url"@.len());
    }
    assert(n != "file-url"@) by {
        assert("url-bookmark-data"@.len() != "file-url"@.len());
    }
    assert(parse_spec(n) == Some(SuperType::UrlBookmarkData));
}

proof fn lemma_display_parse_propertylist()
    ensures
        parse_spec(normalized(name_spec(SuperType::PropertyList))) == Some(SuperType::PropertyList),
{
    reveal_strlit("property-list");
    reveal_strlit("text");
    reveal_strlit("plain-text");
    reveal_strlit("csv");
    reveal_strlit("json");
    reveal_strlit("xml");
    reveal_strlit("yaml");
    reveal_strlit("html");
    reveal_strlit("markdown");
    reveal_strlit("rtf");
    reveal_strlit("image");
    reveal_strlit("raw-image");
    reveal_strlit("png");
    reveal_strlit("jpeg");
    reveal_strlit("gif");
    reveal_strlit("tiff");
    reveal_strlit("svg");
    reveal_strlit("webp");
    reveal_strlit("heic");
    reveal_strlit("heif");
    reveal_strlit("bmp");
    reveal_strlit("audio");
    reveal_strlit("mp3");
    reveal_strlit("wav");
    reveal_strlit("aiff");
    reveal_strlit("midi");
    reveal_strlit("mp4-audio");
    reveal_strlit("apple-protected-mp4-audio");
    reveal_strlit("flac");
    reveal_strlit("ogg-audio");
    reveal_strlit("ac3-audio");
    reveal_strlit("aac-audio");
    reveal_strlit("video");
    reveal_strlit("mpeg2-transport-stream");
    reveal_strlit("movie");
    reveal_strlit("quicktime-movie");
    reveal_strlit("mp4-movie");
    reveal_strlit("apple-protected-mp4-video");
    reveal_strlit("mpeg");
    reveal_strlit("mpeg2-video");
    reveal_strlit("avi");
    reveal_strlit("dv-movie");
    reveal_strlit("real-media");
    reveal_strlit("real-audio");
    reveal_strlit("webm");
    reveal_strlit("matroska");
    reveal_strlit("m3u-playlist");
    reveal_strlit("archive");
    reveal_strlit("zip");
    reveal_strlit("gzip");
    reveal_strlit("tar");
    reveal_strlit("bz2");
    reveal_strlit("apple-archive");
    reveal_strlit("sourcecode");
    reveal_strlit("c-source");
    reveal_strlit("c-header");
    reveal_strlit("cpp-source");
    reveal_strlit("cpp-header");
    reveal_strlit("objc-source");
    reveal_strlit("objc-plus-plus-source");
    reveal_strlit("swift-source");
    reveal_strlit("shell");
    reveal_strlit("makefile");
    reveal_strlit("javascript");
    reveal_strlit("python-script");
    reveal_strlit("ruby-script");
    reveal_strlit("perl-script");
    reveal_strlit("php-script");
    reveal_strlit("apple-script");
    reveal_strlit("assembly-source");
    reveal_strlit("data");
    reveal_strlit("directory");
    reveal_strlit("folder");
    reveal_strlit("symlink");
    reveal_strlit("executable");
    reveal_strlit("unix-executable");
    reveal_strlit("app-bundle");
    reveal_strlit("framework");
    reveal_strlit("disk-image");
    reveal_strlit("volume");
    reveal_strlit("mount-point");
    reveal_strlit("alias-file");
    reveal_strlit("3d-content");
    reveal_strlit("usd");
    reveal_strlit("usdz");
    reveal_strlit("reality-file");
    reveal_strlit("scenekit-scene");
    reveal_strlit("font");
    reveal_strlit("pkcs12");
    reveal_strlit("x509-certificate");
    reveal_strlit("url");
    reveal_strlit("file-url");
    reveal_strlit("url-bookmark-data");
    assert(normalized(name_spec(SuperType::PropertyList)) =~= "property-list"@);
    let n = normalized(name_spec(SuperType::PropertyList));
    assert(n != "text"@) by {
        assert("property-list"@.len() != "text"@.len());
    }
    assert(n != "plain-text"@) by {
        assert("property-list"@.len() != "plain-text"@.len());
    }
    assert(n != "csv"@) by {
        assert("property-list"@.len() != "csv"@.len());
    }
    assert(n != "json"@) by {
        assert("property-list"@.len() != "json"@.len());
    }
    assert(n != "xml"@) by {
        assert("property-list"@.len() != "xml"@.len());
    }
    assert(n != "yaml"@) by {
        assert("property-list"@.len() != "yaml"@.len());
    }
    assert(n != "html"@) by {
        assert("property-list"@.len() != "html"@.len());
    }
    assert(n != "markdown"@) by {
        assert("property-list"@.len() != "markdown"@.len());
    }
    assert(n != "rtf"@) by {
        assert("property-list"@.len() != "rtf"@.len());
    }
    assert(n != "image"@) by {
        assert("property-list"@.len() != "image"@.len());
    }
    assert(n != "raw-image"@) by {
        assert("property-list"@.len() != "raw-image"@.len());
    }
    assert(n != "png"@) by {
        assert("property-list"@.len() != "png"@.len());
    }
    assert(n != "jpeg"@) by {
        assert("property-list"@.len() != "jpeg"@.len());
    }
    assert(n != "gif"@) by {
        assert("property-list"@.len() != "gif"@.len());
    }
    assert(n != "tiff"@) by {
        assert("property-list"@.len() != "tiff"@.len());
    }
    assert(n != "svg"@) by {
        assert("property-list"@.len() != "svg"@.len());
    }
    assert(n != "webp"@) by {
        assert("property-list"@.len() != "webp"@.len());
    }
    assert(n != "heic"@) by {
        assert("property-list"@.len() != "heic"@.len());
    }
    assert(n != "heif"@) by {
        assert("property-list"@.len() != "heif"@.len());
    }
    assert(n != "bmp"@) by {
        assert("property-list"@.len() != "bmp"@.len());
    }
    assert(n != "audio"@) by {
        assert("property-list"@.len() != "audio"@.len());
    }
    assert(n != "mp3"@) by {
        assert("property-list"@.len() != "mp3"@.len());
    }
    assert(n != "wav"@) by {
        assert("property-list"@.len() != "wav"@.len());
    }
    assert(n != "aiff"@) by {
        assert("property-list"@.len() != "aiff"@.len());
    }
    assert(n != "midi"@) by {
        assert("property-list"@.len() != "midi"@.len());
    }
    assert(n != "mp4-audio"@) by {
        assert("property-list"@.len() != "mp4-audio"@.len());
    }
    assert(n != "apple-protected-mp4-audio"@) by {
        assert("property-list"@.len() != "apple-protected-mp4-audio"@.len());
    }
    assert(n != "flac"@) by {
        assert("property-list"@.len() != "flac"@.len());
    }
    assert(n != "ogg-audio"@) by {
        assert("property-list"@.len() != "ogg-audio"@.len());
    }
    assert(n != "ac3-audio"@) by {
        assert("property-list"@.len() != "ac3-audio"@.len());
    }
    assert(n != "aac-audio"@) by {
        assert("property-list"@.len() != "aac-audio"@.len());
    }
    assert(n != "video"@) by {
        assert("property-list"@.len() != "video"@.len());
    }
    assert(n != "mpeg2-transport-stream"@) by {
        assert("property-list"@.len() != "mpeg2-transport-stream"@.len());
    }
    assert(n != "movie"@) by {
        assert("property-list"@.len() != "movie"@.len());
    }
    assert(n != "quicktime-movie"@) by {
        assert("property-list"@.len() != "quicktime-movie"@.len());
    }
    assert(n != "mp4-movie"@) by {
        assert("property-list"@.len() != "mp4-movie"@.len());
    }
    assert(n != "apple-protected-mp4-video"@) by {
        assert("property-list"@.len() != "apple-protected-mp4-video"@.len());
    }
    assert(n != "mpeg"@) by {
        assert("property-list"@.len() != "mpeg"@.len());
    }
    assert(n != "mpeg2-video"@) by {
        assert("property-list"@.len() != "mpeg2-video"@.len());
    }
    assert(n != "avi"@) by {
        assert("property-list"@.len() != "avi"@.len());
    }
    assert(n != "dv-movie"@) by {
        assert("property-list"@.len() != "dv-movie"@.len());
    }
    assert(n != "real-media"@) by {
        assert("property-list"@.len() != "real-media"@.len());
    }
    assert(n != "real-audio"@) by {
        assert("property-list"@.len() != "real-audio"@.len());
    }
    assert(n != "webm"@) by {
        assert("property-list"@.len() != "webm"@.len());
    }
    assert(n != "matroska"@) by {
        assert("property-list"@.len() != "matroska"@.len());
    }
    assert(n != "m3u-playlist"@) by {
        assert("property-list"@.len() != "m3u-playlist"@.len());
    }
    assert(n != "archive"@) by {
        assert("property-list"@.len() != "archive"@.len());
    }
    assert(n != "zip"@) by {
        assert("property-list"@.len() != "zip"@.len());
    }
    assert(n != "gzip"@) by {
        assert("property-list"@.len() != "gzip"@.len());
    }
    assert(n != "tar"@) by {
        assert("property-list"@.len() != "tar"@.len());
    }
    assert(n != "bz2"@) by {
        assert("property-list"@.len() != "bz2"@.len());
    }
    assert(n != "apple-archive"@) by {
        assert("property-list"@[0] != "apple-archive"@[0]);
    }
    assert(n != "sourcecode"@) by {
        assert("property-list"@.len() != "sourcecode"@.len());
    }
    assert(n != "c-source"@) by {
        assert("property-list"@.len() != "c-source"@.len());
    }
    assert(n != "c-header"@) by {
        assert("property-list"@.len() != "c-header"@.len());
    }
    assert(n != "cpp-source"@) by {
        assert("property-list"@.len() != "cpp-source"@.len());
    }
    assert(n != "cpp-header"@) by {
        assert("property-list"@.len() != "cpp-header"@.len());
    }
    assert(n != "objc-source"@) by {
        assert("property-list"@.len() != "objc-source"@.len());
    }
    assert(n != "objc-plus-plus-source"@) by {
        assert("property-list"@.len() != "objc-plus-plus-source"@.len());
    }
    assert(n != "swift-source"@) by {
        assert("property-list"@.len() != "swift-source"@.len());
    }
    assert(n != "shell"@) by {
        assert("property-list"@.len() != "shell"@.len());
    }
    assert(n != "makefile"@) by {
        assert("property-list"@.len() != "makefile"@.len());
    }
    assert(n != "javascript"@) by {
        assert("property-list"@.len() != "javascript"@.len());
    }
    assert(n != "python-script"@) by {
        assert("property-list"@[1] != "python-script"@[1]);
    }
    assert(n != "ruby-script"@) by {
        assert("property-list"@.len() != "ruby-script"@.len());
    }
    assert(n != "perl-script"@) by {
        assert("property-list"@.len() != "perl-script"@.len());
    }
    assert(n != "php-script"@) by {
        assert("property-list"@.len() != "php-script"@.len());
    }
    assert(n != "apple-script"@) by {
        assert("property-list"@.len() != "apple-script"@.len());
    }
    assert(n != "assembly-source"@) by {
        assert("property-list"@.len() != "assembly-source"@.len());
    }
    assert(n != "data"@) by {
        assert("property-list"@.len() != "data"@.len());
    }
    assert(n != "directory"@) by {
        assert("property-list"@.len() != "directory"@.len());
    }
    assert(n != "folder"@) by {
        assert("property-list"@.len() != "folder"@.len());
    }
    assert(n != "symlink"@) by {
        assert("property-list"@.len() != "symlink"@.len());
    }
    assert(n != "executable"@) by {
        assert("property-list"@.len() != "executable"@.len());
    }
    assert(n != "unix-executable"@) by {
        assert("property-list"@.len() != "unix-executable"@.len());
    }
    assert(n != "app-bundle"@) by {
        assert("property-list"@.len() != "app-bundle"@.len());
    }
    assert(n != "framework"@) by {
        assert("property-list"@.len() != "framework"@.len());
    }
    assert(n != "disk-image"@) by {
        assert("property-list"@.len() != "disk-image"@.len());
    }
    assert(n != "volume"@) by {
        assert("property-list"@.len() != "volume"@.len());
    }
    assert(n != "mount-point"@) by {
        assert("property-list"@.len() != "mount-point"@.len());
    }
    assert(n != "alias-file"@) by {
        assert("property-list"@.len() != "alias-file"@.len());
    }
    assert(n != "3d-content"@) by {
        assert("property-list"@.len() != "3d-content"@.len());
    }
    assert(n != "usd"@) by {
        assert("property-list"@.len() != "usd"@.len());
    }
    assert(n != "usdz"@) by {
        assert("property-list"@.len() != "usdz"@.len());
    }
    assert(n != "reality-file"@) by {
        assert("property-list"@.len() != "reality-file"@.len());
    }
    assert(n != "scenekit-scene"@) by {
        assert("property-list"@.len() != "scenekit-scene"@.len());
    }
    assert(n != "font"@) by {
        assert("property-list"@.len() != "font"@.len());
    }
    assert(n != "pkcs12"@) by {
        assert("property-list"@.len() != "pkcs12"@.len());
    }
    assert(n != "x509-certificate"@) by {
        assert("property-list"@.len() != "x509-certificate"@.len());
    }
    assert(n != "url"@) by {
        assert("property-list"@.len() != "url"@.len());
    }
    assert(n != "file-url"@) by {
        assert("property-list"@.len() != "file-url"@.len());
    }
    assert(n != "url-bookmark-data"@) by {
        assert("property-list"@.len() != "url-bookmark-data"@.len());
    }
    assert(parse_spec(n) == Some(SuperType::PropertyList));
}

proof fn lemma_display_parse_xmlpropertylist()
    ensures
        parse_spec(normalized(name_spec(SuperType::XmlPropertyList))) == Some(SuperType::XmlPropertyList),
{
    reveal_strlit("xml-property-list");
    reveal_strlit("text");
    reveal_strlit("plain-text");
    reveal_strlit("csv");
    reveal_strlit("json");
    reveal_strlit("xml");
    reveal_strlit("yaml");
    reveal_strlit("html");
    reveal_strlit("markdown");
    reveal_strlit("rtf");
    reveal_strlit("image");
    reveal_strlit("raw-image");
    reveal_strlit("png");
    reveal_strlit("jpeg");
    reveal_strlit("gif");
    reveal_strlit("tiff");
    reveal_strlit("svg");
    reveal_strlit("webp");
    reveal_strlit("heic");
    reveal_strlit("heif");
    reveal_strlit("bmp");
    reveal_strlit("audio");
    reveal_strlit("mp3");
    reveal_strlit("wav");
    reveal_strlit("aiff");
    reveal_strlit("midi");
    reveal_strlit("mp4-audio");
    reveal_strlit("apple-protected-mp4-audio");
    reveal_strlit("flac");
    reveal_strlit("ogg-audio");
    reveal_strlit("ac3-audio");
    reveal_strlit("aac-audio");
    reveal_strlit("video");
    reveal_strlit("mpeg2-transport-stream");
    reveal_strlit("movie");
    reveal_strlit("quicktime-movie");
    reveal_strlit("mp4-movie");
    reveal_strlit("apple-protected-mp4-video");
    reveal_strlit("mpeg");
    reveal_strlit("mpeg2-video");
    reveal_strlit("avi");
    reveal_strlit("dv-movie");
    reveal_strlit("real-media");
    reveal_strlit("real-audio");
    reveal_strlit("webm");
    reveal_strlit("matroska");
    reveal_strlit("m3u-playlist");
    reveal_strlit("archive");
    reveal_strlit("zip");
    reveal_strlit("gzip");
    reveal_strlit("tar");
    reveal_strlit("bz2");
    reveal_strlit("apple-archive");
    reveal_strlit("sourcecode");
    reveal_strlit("c-source");
    reveal_strlit("c-header");
    reveal_strlit("cpp-source");
    reveal_strlit("cpp-header");
    reveal_strlit("objc-source");
    reveal_strlit("objc-plus-plus-source");
    reveal_strlit("swift-source");
    reveal_strlit("shell");
    reveal_strlit("makefile");
    reveal_strlit("javascript");
    reveal_strlit("python-script");
    reveal_strlit("ruby-script");
    reveal_strlit("perl-script");
    reveal_strlit("php-script");
    reveal_strlit("apple-script");
    reveal_strlit("assembly-source");
    reveal_strlit("data");
    reveal_strlit("directory");
    reveal_strlit("folder");
    reveal_strlit("symlink");
    reveal_strlit("executable");
    reveal_strlit("unix-executable");
    reveal_strlit("app-bundle");
    reveal_strlit("framework");
    reveal_strlit("disk-image");
    reveal_strlit("volume");
    reveal_strlit("mount-point");
    reveal_strlit("alias-file");
    reveal_strlit("3d-content");
    reveal_strlit("usd");
    reveal_strlit("usdz");
    reveal_strlit("reality-file");
    reveal_strlit("scenekit-scene");
    reveal_strlit("font");
    reveal_strlit("pkcs12");
    reveal_strlit("x509-certificate");
    reveal_strlit("url");
    reveal_strlit("file-url");
    reveal_strlit("url-bookmark-data");
    reveal_strlit("property-list");
    assert(normalized(name_spec(SuperType::XmlPropertyList)) =~= "xml-property-list"@);
    let n = normalized(name_spec(SuperType::XmlPropertyList));
    assert(n != "text"@) by {
        assert("xml-property-list"@.len() != "text"@.len());
    }
    assert(n != "plain-text"@) by {
        assert("xml-property-list"@.len() != "plain-text"@.len());
    }
    assert(n != "csv"@) by {
        assert("xml-property-list"@.len() != "csv"@.len());
    }
    assert(n != "json"@) by {
        assert("xml-property-list"@.len() != "json"@.len());
    }
    assert(n != "xml"@) by {
        assert("xml-property-list"@.len() != "xml"@.len());
    }
    assert(n != "yaml"@) by {
        assert("xml-property-list"@.len() != "yaml"@.len());
    }
    assert(n != "html"@) by {
        assert("xml-property-list"@.len() != "html"@.len());
    }
    assert(n != "markdown"@) by {
        assert("xml-property-list"@.len() != "markdown"@.len());
    }
    assert(n != "rtf"@) by {
        assert("xml-property-list"@.len() != "rtf"@.len());
    }
    assert(n != "image"@) by {
        assert("xml-property-list"@.len() != "image"@.len());
    }
    assert(n != "raw-image"@) by {
        assert("xml-property-list"@.len() != "raw-image"@.len());
    }
    assert(n != "png"@) by {
        assert("xml-property-list"@.len() != "png"@.len());
    }
    assert(n != "jpeg"@) by {
        assert("xml-property-list"@.len() != "jpeg"@.len());
    }
    assert(n != "gif"@) by {
        assert("xml-property-list"@.len() != "gif"@.len());
    }
    assert(n != "tiff"@) by {
        assert("xml-property-list"@.len() != "tiff"@.len());
    }
    assert(n != "svg"@) by {
        assert("xml-property-list"@.len() != "svg"@.len());
    }
    assert(n != "webp"@) by {
        assert("xml-property-list"@.len() != "webp"@.len());
    }
    assert(n != "heic"@) by {
        assert("xml-property-list"@.len() != "heic"@.len());
    }
    assert(n != "heif"@) by {
        assert("xml-property-list"@.len() != "heif"@.len());
    }
    assert(n != "bmp"@) by {
        assert("xml-property-list"@.len() != "bmp"@.len());
    }
    assert(n != "audio"@) by {
        assert("xml-property-list"@.len() != "audio"@.len());
    }
    assert(n != "mp3"@) by {
        assert("xml-property-list"@.len() != "mp3"@.len());
    }
    assert(n != "wav"@) by {
        assert("xml-property-list"@.len() != "wav"@.len());
    }
    assert(n != "aiff"@) by {
        assert("xml-property-list"@.len() != "aiff"@.len());
    }
    assert(n != "midi"@) by {
        assert("xml-property-list"@.len() != "midi"@.len());
    }
    assert(n != "mp4-audio"@) by {
        assert("xml-property-list"@.len() != "mp4-audio"@.len());
    }
    assert(n != "apple-protected-mp4-audio"@) by {
        assert("xml-property-list"@.len() != "apple-protected-mp4-audio"@.len());
    }
    assert(n != "flac"@) by {
        assert("xml-property-list"@.len() != "flac"@.len());
    }
    assert(n != "ogg-audio"@) by {
        assert("xml-property-list"@.len() != "ogg-audio"@.len());
    }
    assert(n != "ac3-audio"@) by {
        assert("xml-property-list"@.len() != "ac3-audio"@.len());
    }
    assert(n != "aac-audio"@) by {
        assert("xml-property-list"@.len() != "aac-audio"@.len());
    }
    assert(n != "video"@) by {
        assert("xml-property-list"@.len() != "video"@.len());
    }
    assert(n != "mpeg2-transport-stream"@) by {
        assert("xml-property-list"@.len() != "mpeg2-transport-stream"@.len());
    }
    assert(n != "movie"@) by {
        assert("xml-property-list"@.len() != "movie"@.len());
    }
    assert(n != "quicktime-movie"@) by {
        assert("xml-property-list"@.len() != "quicktime-movie"@.len());
    }
    assert(n != "mp4-movie"@) by {
        assert("xml-property-list"@.len() != "mp4-movie"@.len());
    }
    assert(n != "apple-protected-mp4-video"@) by {
        assert("xml-property-list"@.len() != "apple-protected-mp4-video"@.len());
    }
    assert(n != "mpeg"@) by {
        assert("xml-property-list"@.len() != "mpeg"@.len());
    }
    assert(n != "mpeg2-video"@) by {
        assert("xml-property-list"@.len() != "mpeg2-video"@.len());
    }
    assert(n != "avi"@) by {
        assert("xml-property-list"@.len() != "avi"@.len());
    }
    assert(n != "dv-movie"@) by {
        assert("xml-property-list"@.len() != "dv-movie"@.len());
    }
    assert(n != "real-media"@) by {
        assert("xml-property-list"@.len() != "real-media"@.len());
    }
    assert(n != "real-audio"@) by {
        assert("xml-property-list"@.len() != "real-audio"@.len());
    }
    assert(n != "webm"@) by {
        assert("xml-property-list"@.len() != "webm"@.len());
    }
    assert(n != "matroska"@) by {
        assert("xml-property-list"@.len() != "matroska"@.len());
    }
    assert(n != "m3u-playlist"@) by {
        assert("xml-property-list"@.len() != "m3u-playlist"@.len());
    }
    assert(n != "archive"@) by {
        assert("xml-property-list"@.len() != "archive"@.len());
    }
    assert(n != "zip"@) by {
        assert("xml-property-list"@.len() != "zip"@.len());
    }
    assert(n != "gzip"@) by {
        assert("xml-property-list"@.len() != "gzip"@.len());
    }
    assert(n != "tar"@) by {
        assert("xml-property-list"@.len() != "tar"@.len());
    }
    assert(n != "bz2"@) by {
        assert("xml-property-list"@.len() != "bz2"@.len());
    }
    assert(n != "apple-archive"@) by {
        assert("xml-property-list"@.len() != "apple-archive"@.len());
    }
    assert(n != "sourcecode"@) by {
        assert("xml-property-list"@.len() != "sourcecode"@.len());
    }
    assert(n != "c-source"@) by {
        assert("xml-property-list"@.len() != "c-source"@.len());
    }
    assert(n != "c-header"@) by {
        assert("xml-property-list"@.len() != "c-header"@.len());
    }
    assert(n != "cpp-source"@) by {
        assert("xml-property-list"@.len() != "cpp-source"@.len());
    }
    assert(n != "cpp-header"@) by {
        assert("xml-property-list"@.len() != "cpp-header"@.len());
    }
    assert(n != "objc-source"@) by {
        assert("xml-property-list"@.len() != "objc-source"@.len());
    }
    assert(n != "objc-plus-plus-source"@) by {
        assert("xml-property-list"@.len() != "objc-plus-plus-source"@.len());
    }
    assert(n != "swift-source"@) by {
        assert("xml-property-list"@.len() != "swift-source"@.len());
    }
    assert(n != "shell"@) by {
        assert("xml-property-list"@.len() != "shell"@.len());
    }
    assert(n != "makefile"@) by {
        assert("xml-property-list"@.len() != "makefile"@.len());
    }
    assert(n != "javascript"@) by {
        assert("xml-property-list"@.len() != "javascript"@.len());
    }
    assert(n != "python-script"@) by {
        assert("xml-property-list"@.len() != "python-script"@.len());
    }
    assert(n != "ruby-script"@) by {
        assert("xml-property-list"@.len() != "ruby-script"@.len());
    }
    assert(n != "perl-script"@) by {
        assert("xml-property-list"@.len() != "perl-script"@.len());
    }
    assert(n != "php-script"@) by {
        assert("xml-property-list"@.len() != "php-script"@.len());
    }
    assert(n != "apple-script"@) by {
        assert("xml-property-list"@.len() != "apple-script"@.len());
    }
    assert(n != "assembly-source"@) by {
        assert("xml-property-list"@.len() != "assembly-source"@.len());
    }
    assert(n != "data"@) by {
        assert("xml-property-list"@.len() != "data"@.len());
    }
    assert(n != "directory"@) by {
        assert("xml-property-list"@.len() != "directory"@.len());
    }
    assert(n != "folder"@) by {
        assert("xml-property-list"@.len() != "folder"@.len());
    }
    assert(n != "symlink"@) by {
        assert("xml-property-list"@.len() != "symlink"@.len());
    }
    assert(n != "executable"@) by {
        assert("xml-property-list"@.len() != "executable"@.len());
    }
    assert(n != "unix-executable"@) by {
        assert("xml-property-list"@.len() != "unix-executable"@.len());
    }
    assert(n != "app-bundle"@) by {
        assert("xml-property-list"@.len() != "app-bundle"@.len());
    }
    assert(n != "framework"@) by {
        assert("xml-property-list"@.len() != "framework"@.len());
    }
    assert(n != "disk-image"@) by {
        assert("xml-property-list"@.len() != "disk-image"@.len());
    }
    assert(n != "volume"@) by {
        assert("xml-property-list"@.len() != "volume"@.len());
    }
    assert(n != "mount-point"@) by {
        assert("xml-property-list"@.len() != "mount-point"@.len());
    }
    assert(n != "alias-file"@) by {
        assert("xml-property-list"@.len() != "alias-file"@.len());
    }
    assert(n != "3d-content"@) by {
        assert("xml-property-list"@.len() != "3d-content"@.len());
    }
    assert(n != "usd"@) by {
        assert("xml-property-list"@.len() != "usd"@.len());
    }
    assert(n != "usdz"@) by {
        assert("xml-property-list"@.len() != "usdz"@.len());
    }
    assert(n != "reality-file"@) by {
        assert("xml-property-list"@.len() != "reality-file"@.len());
    }
    assert(n != "scenekit-scene"@) by {
        assert("xml-property-list"@.len() != "scenekit-scene"@.len());
    }
    assert(n != "font"@) by {
        assert("xml-property-list"@.len() != "font"@.len());
    }
    assert(n != "pkcs12"@) by {
        assert("xml-property-list"@.len() != "pkcs12"@.len());
    }
    assert(n != "x509-certificate"@) by {
        assert("xml-property-list"@.len() != "x509-certificate"@.len());
    }
    assert(n != "url"@) by {
        assert("xml-property-list"@.len() != "url"@.len());
    }
    assert(n != "file-url"@) by {
        assert("xml-property-list"@.len() != "file-url"@.len());
    }
    assert(n != "url-bookmark-data"@) by {
        assert("xml-property-list"@[0] != "url-bookmark-data"@[0]);
    }
    assert(n != "property-list"@) by {
        assert("xml-property-list"@.len() != "property-list"@.len());
    }
    assert(parse_spec(n) == Some(SuperType::XmlPropertyList));
}

proof fn lemma_display_parse_binarypropertylist()
    ensures
        parse_spec(normalized(name_spec(SuperType::BinaryPropertyList))) == Some(SuperType::BinaryPropertyList),
{
    reveal_strlit("binary-property-list");
    reveal_strlit("text");
    reveal_strlit("plain-text");
    reveal_strlit("csv");
    reveal_strlit("json");
    reveal_strlit("xml");
    reveal_strlit("yaml");
    reveal_strlit("html");
    reveal_strlit("markdown");
    reveal_strlit("rtf");
    reveal_strlit("image");
    reveal_strlit("raw-image");
    reveal_strlit("png");
    reveal_strlit("jpeg");
    reveal_strlit("gif");
    reveal_strlit("tiff");
    reveal_strlit("svg");
    reveal_strlit("webp");
    reveal_strlit("heic");
    reveal_strlit("heif");
    reveal_strlit("bmp");
    reveal_strlit("audio");
    reveal_strlit("mp3");
    reveal_strlit("wav");
    reveal_strlit("aiff");
    reveal_strlit("midi");
    reveal_strlit("mp4-audio");
    reveal_strlit("apple-protected-mp4-audio");
    reveal_strlit("flac");
    reveal_strlit("ogg-audio");
    reveal_strlit("ac3-audio");
    reveal_strlit("aac-audio");
    reveal_strlit("video");
    reveal_strlit("mpeg2-transport-stream");
    reveal_strlit("movie");
    reveal_strlit("quicktime-movie");
    reveal_strlit("mp4-movie");
    reveal_strlit("apple-protected-mp4-video");
    reveal_strlit("mpeg");
    reveal_strlit("mpeg2-video");
    reveal_strlit("avi");
    reveal_strlit("dv-movie");
    reveal_strlit("real-media");
    reveal_strlit("real-audio");
    reveal_strlit("webm");
    reveal_strlit("matroska");
    reveal_strlit("m3u-playlist");
    reveal_strlit("archive");
    reveal_strlit("zip");
    reveal_strlit("gzip");
    reveal_strlit("tar");
    reveal_strlit("bz2");
    reveal_strlit("apple-archive");
    reveal_strlit("sourcecode");
    reveal_strlit("c-source");
    reveal_strlit("c-header");
    reveal_strlit("cpp-source");
    reveal_strlit("cpp-header");
    reveal_strlit("objc-source");
    reveal_strlit("objc-plus-plus-source");
    reveal_strlit("swift-source");
    reveal_strlit("shell");
    reveal_strlit("makefile");
    reveal_strlit("javascript");
    reveal_strlit("python-script");
    reveal_strlit("ruby-script");
    reveal_strlit("perl-script");
    reveal_strlit("php-script");
    reveal_strlit("apple-script");
    reveal_strlit("assembly-source");
    reveal_strlit("data");
    reveal_strlit("directory");
    reveal_strlit("folder");
    reveal_strlit("symlink");
    reveal_strlit("executable");
    reveal_strlit("unix-executable");
    reveal_strlit("app-bundle");
    reveal_strlit("framework");
    reveal_strlit("disk-image");
    reveal_strlit("volume");
    reveal_strlit("mount-point");
    reveal_strlit("alias-file");
    reveal_strlit("3d-content");
    reveal_strlit("usd");
    reveal_strlit("usdz");
    reveal_strlit("reality-file");
    reveal_strlit("scenekit-scene");
    reveal_strlit("font");
    reveal_strlit("pkcs12");
    reveal_strlit("x509-certificate");
    reveal_strlit("url");
    reveal_strlit("file-url");
    reveal_strlit("url-bookmark-data");
    reveal_strlit("property-list");
    reveal_strlit("xml-property-list");
    assert(normalized(name_spec(SuperType::BinaryPropertyList)) =~= "binary-property-list"@);
    let n = normalized(name_spec(SuperType::BinaryPropertyList));
    assert(n != "text"@) by {
        assert("binary-property-list"@.len() != "text"@.len());
    }
    assert(n != "plain-text"@) by {
        assert("binary-property-list"@.len() != "plain-text"@.len());
    }
    assert(n != "csv"@) by {
        assert("binary-property-list"@.len() != "csv"@.len());
    }
    assert(n != "json"@) by {
        assert("binary-property-list"@.len() != "json"@.len());
    }
    assert(n != "xml"@) by {
        assert("binary-property-list"@.len() != "xml"@.len());
    }
    assert(n != "yaml"@) by {
        assert("binary-property-list"@.len() != "yaml"@.len());
    }
    assert(n != "html"@) by {
        assert("binary-property-list"@.len() != "html"@.len());
    }
    assert(n != "markdown"@) by {
        assert("binary-property-list"@.len() != "markdown"@.len());
    }
    assert(n != "rtf"@) by {
        assert("binary-property-list"@.len() != "rtf"@.len());
    }
    assert(n != "image"@) by {
        assert("binary-property-list"@.len() != "image"@.len());
    }
    assert(n != "raw-image"@) by {
        assert("binary-property-list"@.len() != "raw-image"@.len());
    }
    assert(n != "png"@) by {
        assert("binary-property-list"@.len() != "png"@.len());
    }
    assert(n != "jpeg"@) by {
        assert("binary-property-list"@.len() != "jpeg"@.len());
    }
    assert(n != "gif"@) by {
        assert("binary-property-list"@.len() != "gif"@.len());
    }
    assert(n != "tiff"@) by {
        assert("binary-property-list"@.len() != "tiff"@.len());
    }
    assert(n != "svg"@) by {
        assert("binary-property-list"@.len() != "svg"@.len());
    }
    assert(n != "webp"@) by {
        assert("binary-property-list"@.len() != "webp"@.len());
    }
    assert(n != "heic"@) by {
        assert("binary-property-list"@.len() != "heic"@.len());
    }
    assert(n != "heif"@) by {
        assert("binary-property-list"@.len() != "heif"@.len());
    }
    assert(n != "bmp"@) by {
        assert("binary-property-list"@.len() != "bmp"@.len());
    }
    assert(n != "audio"@) by {
        assert("binary-property-list"@.len() != "audio"@.len());
    }
    assert(n != "mp3"@) by {
        assert("binary-property-list"@.len() != "mp3"@.len());
    }
    assert(n != "wav"@) by {
        assert("binary-property-list"@.len() != "wav"@.len());
    }
    assert(n != "aiff"@) by {
        assert("binary-property-list"@.len() != "aiff"@.len());
    }
    assert(n != "midi"@) by {
        assert("binary-property-list"@.len() != "midi"@.len());
    }
    assert(n != "mp4-audio"@) by {
        assert("binary-property-list"@.len() != "mp4-audio"@.len());
    }
    assert(n != "apple-protected-mp4-audio"@) by {
        assert("binary-property-list"@.len() != "apple-protected-mp4-audio"@.len());
    }
    assert(n != "flac"@) by {
        assert("binary-property-list"@.len() != "flac"@.len());
    }
    assert(n != "ogg-audio"@) by {
        assert("binary-property-list"@.len() != "ogg-audio"@.len());
    }
    assert(n != "ac3-audio"@) by {
        assert("binary-property-list"@.len() != "ac3-audio"@.len());
    }
    assert(n != "aac-audio"@) by {
        assert("binary-property-list"@.len() != "aac-audio"@.len());
    }
    assert(n != "video"@) by {
        assert("binary-property-list"@.len() != "video"@.len());
    }
    assert(n != "mpeg2-transport-stream"@) by {
        assert("binary-property-list"@.len() != "mpeg2-transport-stream"@.len());
    }
    assert(n != "movie"@) by {
        assert("binary-property-list"@.len() != "movie"@.len());
    }
    assert(n != "quicktime-movie"@) by {
        assert("binary-property-list"@.len() != "quicktime-movie"@.len());
    }
    assert(n != "mp4-movie"@) by {
        assert("binary-property-list"@.len() != "mp4-movie"@.len());
    }
    assert(n != "apple-protected-mp4-video"@) by {
        assert("binary-property-list"@.len() != "apple-protected-mp4-video"@.len());
    }
    assert(n != "mpeg"@) by {
        assert("binary-property-list"@.len() != "mpeg"@.len());
    }
    assert(n != "mpeg2-video"@) by {
        assert("binary-property-list"@.len() != "mpeg2-video"@.len());
    }
    assert(n != "avi"@) by {
        assert("binary-property-list"@.len() != "avi"@.len());
    }
    assert(n != "dv-movie"@) by {
        assert("binary-property-list"@.len() != "dv-movie"@.len());
    }
    assert(n != "real-media"@) by {
        assert("binary-property-list"@.len() != "real-media"@.len());
    }
    assert(n != "real-audio"@) by {
        assert("binary-property-list"@.len() != "real-audio"@.len());
    }
    assert(n != "webm"@) by {
        assert("binary-property-list"@.len() != "webm"@.len());
    }
    assert(n != "matroska"@) by {
        assert("binary-property-list"@.len() != "matroska"@.len());
    }
    assert(n != "m3u-playlist"@) by {
        assert("binary-property-list"@.len() != "m3u-playlist"@.len());
    }
    assert(n != "archive"@) by {
        assert("binary-property-list"@.len() != "archive"@.len());
    }
    assert(n != "zip"@) by {
        assert("binary-property-list"@.len() != "zip"@.len());
    }
    assert(n != "gzip"@) by {
        assert("binary-property-list"@.len() != "gzip"@.len());
    }
    assert(n != "tar"@) by {
        assert("binary-property-list"@.len() != "tar"@.len());
    }
    assert(n != "bz2"@) by {
        assert("binary-property-list"@.len() != "bz2"@.len());
    }
    assert(n != "apple-archive"@) by {
        assert("binary-property-list"@.len() != "apple-archive"@.len());
    }
    assert(n != "sourcecode"@) by {
        assert("binary-property-list"@.len() != "sourcecode"@.len());
    }
    assert(n != "c-source"@) by {
        assert("binary-property-list"@.len() != "c-source"@.len());
    }
    assert(n != "c-header"@) by {
        assert("binary-property-list"@.len() != "c-header"@.len());
    }
    assert(n != "cpp-source"@) by {
        assert("binary-property-list"@.len() != "cpp-source"@.len());
    }
    assert(n != "cpp-header"@) by {
        assert("binary-property-list"@.len() != "cpp-header"@.len());
    }
    assert(n != "objc-source"@) by {
        assert("binary-property-list"@.len() != "objc-source"@.len());
    }
    assert(n != "objc-plus-plus-source"@) by {
        assert("binary-property-list"@.len() != "objc-plus-plus-source"@.len());
    }
    assert(n != "swift-source"@) by {
        assert("binary-property-list"@.len() != "swift-source"@.len());
    }
    assert(n != "shell"@) by {
        assert("binary-property-list"@.len() != "shell"@.len());
    }
    assert(n != "makefile"@) by {
        assert("binary-property-list"@.len() != "makefile"@.len());
    }
    assert(n != "javascript"@) by {
        assert("binary-property-list"@.len() != "javascript"@.len());
    }
    assert(n != "python-script"@) by {
        assert("binary-property-list"@.len() != "python-script"@.len());
    }
    assert(n != "ruby-script"@) by {
        assert("binary-property-list"@.len() != "ruby-script"@.len());
    }
    assert(n != "perl-script"@) by {
        assert("binary-property-list"@.len() != "perl-script"@.len());
    }
    assert(n != "php-script"@) by {
        assert("binary-property-list"@.len() != "php-script"@.len());
    }
    assert(n != "apple-script"@) by {
        assert("binary-property-list"@.len() != "apple-script"@.len());
    }
    assert(n != "assembly-source"@) by {
        assert("binary-property-list"@.len() != "assembly-source"@.len());
    }
    assert(n != "data"@) by {
        assert("binary-property-list"@.len() != "data"@.len());
    }
    assert(n != "directory"@) by {
        assert("binary-property-list"@.len() != "directory"@.len());
    }
    assert(n != "folder"@) by {
        assert("binary-property-list"@.len() != "folder"@.len());
    }
    assert(n != "symlink"@) by {
        assert("binary-property-list"@.len() != "symlink"@.len());
    }
    assert(n != "executable"@) by {
        assert("binary-property-list"@.len() != "executable"@.len());
    }
    assert(n != "unix-executable"@) by {
        assert("binary-property-list"@.len() != "unix-executable"@.len());
    }
    assert(n != "app-bundle"@) by {
        assert("binary-property-list"@.len() != "app-bundle"@.len());
    }
    assert(n != "framework"@) by {
        assert("binary-property-list"@.len() != "framework"@.len());
    }
    assert(n != "disk-image"@) by {
        assert("binary-property-list"@.len() != "disk-image"@.len());
    }
    assert(n != "volume"@) by {
        assert("binary-property-list"@.len() != "volume"@.len());
    }
    assert(n != "mount-point"@) by {
        assert("binary-property-list"@.len() != "mount-point"@.len());
    }
    assert(n != "alias-file"@) by {
        assert("binary-property-list"@.len() != "alias-file"@.len());
    }
    assert(n != "3d-content"@) by {
        assert("binary-property-list"@.len() != "3d-content"@.len());
    }
    assert(n != "usd"@) by {
        assert("binary-property-list"@.len() != "usd"@.len());
    }
    assert(n != "usdz"@) by {
        assert("binary-property-list"@.len() != "usdz"@.len());
    }
    assert(n != "reality-file"@) by {
        assert("binary-property-list"@.len() != "reality-file"@.len());
    }
    assert(n != "scenekit-scene"@) by {
        assert("binary-property-list"@.len() != "scenekit-scene"@.len());
    }
    assert(n != "font"@) by {
        assert("binary-property-list"@.len() != "font"@.len());
    }
    assert(n != "pkcs12"@) by {
        assert("binary-property-list"@.len() != "pkcs12"@.len());
    }
    assert(n != "x509-certificate"@) by {
        assert("binary-property-list"@.len() != "x509-certificate"@.len());
    }
    assert(n != "url"@) by {
        assert("binary-property-list"@.len() != "url"@.len());
    }
    assert(n != "file-url"@) by {
        assert("binary-property-list"@.len() != "file-url"@.len());
    }
    assert(n != "url-bookmark-data"@) by {
        assert("binary-property-list"@.len() != "url-bookmark-data"@.len());
    }
    assert(n != "property-list"@) by {
        assert("binary-property-list"@.len() != "property-list"@.len());
    }
    assert(n != "xml-property-list"@) by {
        assert("binary-property-list"@.len() != "xml-property-list"@.len());
    }
    assert(parse_spec(n) == Some(SuperType::BinaryPropertyList));
}

proof fn lemma_display_parse_log()
    ensures
        parse_spec(normalized(name_spec(SuperType::Log))) == Some(SuperType::Log),
{
    reveal_strlit("log");
    reveal_strlit("text");
    reveal_strlit("plain-text");
    reveal_strlit("csv");
    reveal_strlit("json");
    reveal_strlit("xml");
    reveal_strlit("yaml");
    reveal_strlit("html");
    reveal_strlit("markdown");
    reveal_strlit("rtf");
    reveal_strlit("image");
    reveal_strlit("raw-image");
    reveal_strlit("png");
    reveal_strlit("jpeg");
    reveal_strlit("gif");
    reveal_strlit("tiff");
    reveal_strlit("svg");
    reveal_strlit("webp");
    reveal_strlit("heic");
    reveal_strlit("heif");
    reveal_strlit("bmp");
    reveal_strlit("audio");
    reveal_strlit("mp3");
    reveal_strlit("wav");
    reveal_strlit("aiff");
    reveal_strlit("midi");
    reveal_strlit("mp4-audio");
    reveal_strlit("apple-protected-mp4-audio");
    reveal_strlit("flac");
    reveal_strlit("ogg-audio");
    reveal_strlit("ac3-audio");
    reveal_strlit("aac-audio");
    reveal_strlit("video");
    reveal_strlit("mpeg2-transport-stream");
    reveal_strlit("movie");
    reveal_strlit("quicktime-movie");
    reveal_strlit("mp4-movie");
    reveal_strlit("apple-protected-mp4-video");
    reveal_strlit("mpeg");
    reveal_strlit("mpeg2-video");
    reveal_strlit("avi");
    reveal_strlit("dv-movie");
    reveal_strlit("real-media");
    reveal_strlit("real-audio");
    reveal_strlit("webm");
    reveal_strlit("matroska");
    reveal_strlit("m3u-playlist");
    reveal_strlit("archive");
    reveal_strlit("zip");
    reveal_strlit("gzip");
    reveal_strlit("tar");
    reveal_strlit("bz2");
    reveal_strlit("apple-archive");
    reveal_strlit("sourcecode");
    reveal_strlit("c-source");
    reveal_strlit("c-header");
    reveal_strlit("cpp-source");
    reveal_strlit("cpp-header");
    reveal_strlit("objc-source");
    reveal_strlit("objc-plus-plus-source");
    reveal_strlit("swift-source");
    reveal_strlit("shell");
    reveal_strlit("makefile");
    reveal_strlit("javascript");
    reveal_strlit("python-script");
    reveal_strlit("ruby-script");
    reveal_strlit("perl-script");
    reveal_strlit("php-script");
    reveal_strlit("apple-script");
    reveal_strlit("assembly-source");
    reveal_strlit("data");
    reveal_strlit("directory");
    reveal_strlit("folder");
    reveal_strlit("symlink");
    reveal_strlit("executable");
    reveal_strlit("unix-executable");
    reveal_strlit("app-bundle");
    reveal_strlit("framework");
    reveal_strlit("disk-image");
    reveal_strlit("volume");
    reveal_strlit("mount-point");
    reveal_strlit("alias-file");
    reveal_strlit("3d-content");
    reveal_strlit("usd");
    reveal_strlit("usdz");
    reveal_strlit("reality-file");
    reveal_strlit("scenekit-scene");
    reveal_strlit("font");
    reveal_strlit("pkcs12");
    reveal_strlit("x509-certificate");
    reveal_strlit("url");
    reveal_strlit("file-url");
    reveal_strlit("url-bookmark-data");
    reveal_strlit("property-list");
    reveal_strlit("xml-property-list");
    reveal_strlit("binary-property-list");
    assert(normalized(name_spec(SuperType::Log)) =~= "log"@);
    let n = normalized(name_spec(SuperType::Log));
    assert(n != "text"@) by {
        assert("log"@.len() != "text"@.len());
    }
    assert(n != "plain-text"@) by {
        assert("log"@.len() != "plain-text"@.len());
    }
    assert(n != "csv"@) by {
        assert("log"@[0] != "csv"@[0]);
    }
    assert(n != "json"@) by {
        assert("log"@.len() != "json"@.len());
    }
    assert(n != "xml"@) by {
        assert("log"@[0] != "xml"@[0]);
    }
    assert(n != "yaml"@) by {
        assert("log"@.len() != "yaml"@.len());
    }
    assert(n != "html"@) by {
        assert("log"@.len() != "html"@.len());
    }
    assert(n != "markdown"@) by {
        assert("log"@.len() != "markdown"@.len());
    }
    assert(n != "rtf"@) by {
        assert("log"@[0] != "rtf"@[0]);
    }
    assert(n != "image"@) by {
        assert("log"@.len() != "image"@.len());
    }
    assert(n != "raw-image"@) by {
        assert("log"@.len() != "raw-image"@.len());
    }
    assert(n != "png"@) by {
        assert("log"@[0] != "png"@[0]);
    }
    assert(n != "jpeg"@) by {
        assert("log"@.len() != "jpeg"@.len());
    }
    assert(n != "gif"@) by {
        assert("log"@[0] != "gif"@[0]);
    }
    assert(n != "tiff"@) by {
        assert("log"@.len() != "tiff"@.len());
    }
    assert(n != "svg"@) by {
        assert("log"@[0] != "svg"@[0]);
    }
    assert(n != "webp"@) by {
        assert("log"@.len() != "webp"@.len());
    }
    assert(n != "heic"@) by {
        assert("log"@.len() != "heic"@.len());
    }
    assert(n != "heif"@) by {
        assert("log"@.len() != "heif"@.len());
    }
    assert(n != "bmp"@) by {
        assert("log"@[0] != "bmp"@[0]);
    }
    assert(n != "audio"@) by {
        assert("log"@.len() != "audio"@.len());
    }
    assert(n != "mp3"@) by {
        assert("log"@[0] != "mp3"@[0]);
    }
    assert(n != "wav"@) by {
        assert("log"@[0] != "wav"@[0]);
    }
    assert(n != "aiff"@) by {
        assert("log"@.len() != "aiff"@.len());
    }
    assert(n != "midi"@) by {
        assert("log"@.len() != "midi"@.len());
    }
    assert(n != "mp4-audio"@) by {
        assert("log"@.len() != "mp4-audio"@.len());
    }
    assert(n != "apple-protected-mp4-audio"@) by {
        assert("log"@.len() != "apple-protected-mp4-audio"@.len());
    }
    assert(n != "flac"@) by {
        assert("log"@.len() != "flac"@.len());
    }
    assert(n != "ogg-audio"@) by {
        assert("log"@.len() != "ogg-audio"@.len());
    }
    assert(n != "ac3-audio"@) by {
        assert("log"@.len() != "ac3-audio"@.len());
    }
    assert(n != "aac-audio"@) by {
        assert("log"@.len() != "aac-audio"@.len());
    }
    assert(n != "video"@) by {
        assert("log"@.len() != "video"@.len());
    }
    assert(n != "mpeg2-transport-stream"@) by {
        assert("log"@.len() != "mpeg2-transport-stream"@.len());
    }
    assert(n != "movie"@) by {
        assert("log"@.len() != "movie"@.len());
    }
    assert(n != "quicktime-movie"@) by {
        assert("log"@.len() != "quicktime-movie"@.len());
    }
    assert(n != "mp4-movie"@) by {
        assert("log"@.len() != "mp4-movie"@.len());
    }
    assert(n != "apple-protected-mp4-video"@) by {
        assert("log"@.len() != "apple-protected-mp4-video"@.len());
    }
    assert(n != "mpeg"@) by {
        assert("log"@.len() != "mpeg"@.len());
    }
    assert(n != "mpeg2-video"@) by {
        assert("log"@.len() != "mpeg2-video"@.len());
    }
    assert(n != "avi"@) by {
        assert("log"@[0] != "avi"@[0]);
    }
    assert(n != "dv-movie"@) by {
        assert("log"@.len() != "dv-movie"@.len());
    }
    assert(n != "real-media"@) by {
        assert("log"@.len() != "real-media"@.len());
    }
    assert(n != "real-audio"@) by {
        assert("log"@.len() != "real-audio"@.len());
    }
    assert(n != "webm"@) by {
        assert("log"@.len() != "webm"@.len());
    }
    assert(n != "matroska"@) by {
        assert("log"@.len() != "matroska"@.len());
    }
    assert(n != "m3u-playlist"@) by {
        assert("log"@.len() != "m3u-playlist"@.len());
    }
    assert(n != "archive"@) by {
        assert("log"@.len() != "archive"@.len());
    }
    assert(n != "zip"@) by {
        assert("log"@[0] != "zip"@[0]);
    }
    assert(n != "gzip"@) by {
        assert("log"@.len() != "gzip"@.len());
    }
    assert(n != "tar"@) by {
        assert("log"@[0] != "tar"@[0]);
    }
    assert(n != "bz2"@) by {
        assert("log"@[0] != "bz2"@[0]);
    }
    assert(n != "apple-archive"@) by {
        assert("log"@.len() != "apple-archive"@.len());
    }
    assert(n != "sourcecode"@) by {
        assert("log"@.len() != "sourcecode"@.len());
    }
    assert(n != "c-source"@) by {
        assert("log"@.len() != "c-source"@.len());
    }
    assert(n != "c-header"@) by {
        assert("log"@.len() != "c-header"@.len());
    }
    assert(n != "cpp-source"@) by {
        assert("log"@.len() != "cpp-source"@.len());
    }
    assert(n != "cpp-header"@) by {
        assert("log"@.len() != "cpp-header"@.len());
    }
    assert(n != "objc-source"@) by {
        assert("log"@.len() != "objc-source"@.len());
    }
    assert(n != "objc-plus-plus-source"@) by {
        assert("log"@.len() != "objc-plus-plus-source"@.len());
    }
    assert(n != "swift-source"@) by {
        assert("log"@.len() != "swift-source"@.len());
    }
    assert(n != "shell"@) by {
        assert("log"@.len() != "shell"@.len());
    }
    assert(n != "makefile"@) by {
        assert("log"@.len() != "makefile"@.len());
    }
    assert(n != "javascript"@) by {
        assert("log"@.len() != "javascript"@.len());
    }
    assert(n != "python-script"@) by {
        assert("log"@.len() != "python-script"@.len());
    }
    assert(n != "ruby-script"@) by {
        assert("log"@.len() != "ruby-script"@.len());
    }
    assert(n != "perl-script"@) by {
        assert("log"@.len() != "perl-script"@.len());
    }
    assert(n != "php-script"@) by {
        assert("log"@.len() != "php-script"@.len());
    }
    assert(n != "apple-script"@) by {
        assert("log"@.len() != "apple-script"@.len());
    }
    assert(n != "assembly-source"@) by {
        assert("log"@.len() != "assembly-source"@.len());
    }
    assert(n != "data"@) by {
        assert("log"@.len() != "data"@.len());
    }
    assert(n != "directory"@) by {
        assert("log"@.len() != "directory"@.len());
    }
    assert(n != "folder"@) by {
        assert("log"@.len() != "folder"@.len());
    }
    assert(n != "symlink"@) by {
        assert("log"@.len() != "symlink"@.len());
    }
    assert(n != "executable"@) by {
        assert("log"@.len() != "executable"@.len());
    }
    assert(n != "unix-executable"@) by {
        assert("log"@.len() != "unix-executable"@.len());
    }
    assert(n != "app-bundle"@) by {
        assert("log"@.len() != "app-bundle"@.len());
    }
    assert(n != "framework"@) by {
        assert("log"@.len() != "framework"@.len());
    }
    assert(n != "disk-image"@) by {
        assert("log"@.len() != "disk-image"@.len());
    }
    assert(n != "volume"@) by {
        assert("log"@.len() != "volume"@.len());
    }
    assert(n != "mount-point"@) by {
        assert("log"@.len() != "mount-point"@.len());
    }
    assert(n != "alias-file"@) by {
        assert("log"@.len() != "alias-file"@.len());
    }
    assert(n != "3d-content"@) by {
        assert("log"@.len() != "3d-content"@.len());
    }
    assert(n != "usd"@) by {
        assert("log"@[0] != "usd"@[0]);
    }
    assert(n != "usdz"@) by {
        assert("log"@.len() != "usdz"@.len());
    }
    assert(n != "reality-file"@) by {
        assert("log"@.len() != "reality-file"@.len());
    }
    assert(n != "scenekit-scene"@) by {
        assert("log"@.len() != "scenekit-scene"@.len());
    }
    assert(n != "font"@) by {
        assert("log"@.len() != "font"@.len());
    }
    assert(n != "pkcs12"@) by {
        assert("log"@.len() != "pkcs12"@.len());
    }
    assert(n != "x509-certificate"@) by {
        assert("log"@.len() != "x509-certificate"@.len());
    }
    assert(n != "url"@) by {
        assert("log"@[0] != "url"@[0]);
    }
    assert(n != "file-url"@) by {
        assert("log"@.len() != "file-url"@.len());
    }
    assert(n != "url-bookmark-data"@) by {
        assert("log"@.len() != "url-bookmark-data"@.len());
    }
    assert(n != "property-list"@) by {
        assert("log"@.len() != "property-list"@.len());
    }
    assert(n != "xml-property-list"@) by {
        assert("log"@.len() != "xml-property-list"@.len());
    }
    assert(n != "binary-property-list"@) by {
        assert("log"@.len() != "binary-property-list"@.len());
    }
    assert(parse_spec(n) == Some(SuperType::Log));
}

proof fn lemma_display_parse_bookmark()
    ensures
        parse_spec(normalized(name_spec(SuperType::Bookmark))) == Some(SuperType::Bookmark),
{
    reveal_strlit("bookmark");
    reveal_strlit("text");
    reveal_strlit("plain-text");
    reveal_strlit("csv");
    reveal_strlit("json");
    reveal_strlit("xml");
    reveal_strlit("yaml");
    reveal_strlit("html");
    reveal_strlit("markdown");
    reveal_strlit("rtf");
    reveal_strlit("image");
    reveal_strlit("raw-image");
    reveal_strlit("png");
    reveal_strlit("jpeg");
    reveal_strlit("gif");
    reveal_strlit("tiff");
    reveal_strlit("svg");
    reveal_strlit("webp");
    reveal_strlit("heic");
    reveal_strlit("heif");
    reveal_strlit("bmp");
    reveal_strlit("audio");
    reveal_strlit("mp3");
    reveal_strlit("wav");
    reveal_strlit("aiff");
    reveal_strlit("midi");
    reveal_strlit("mp4-audio");
    reveal_strlit("apple-protected-mp4-audio");
    reveal_strlit("flac");
    reveal_strlit("ogg-audio");
    reveal_strlit("ac3-audio");
    reveal_strlit("aac-audio");
    reveal_strlit("video");
    reveal_strlit("mpeg2-transport-stream");
    reveal_strlit("movie");
    reveal_strlit("quicktime-movie");
    reveal_strlit("mp4-movie");
    reveal_strlit("apple-protected-mp4-video");
    reveal_strlit("mpeg");
    reveal_strlit("mpeg2-video");
    reveal_strlit("avi");
    reveal_strlit("dv-movie");
    reveal_strlit("real-media");
    reveal_strlit("real-audio");
    reveal_strlit("webm");
    reveal_strlit("matroska");
    reveal_strlit("m3u-playlist");
    reveal_strlit("archive");
    reveal_strlit("zip");
    reveal_strlit("gzip");
    reveal_strlit("tar");
    reveal_strlit("bz2");
    reveal_strlit("apple-archive");
    reveal_strlit("sourcecode");
    reveal_strlit("c-source");
    reveal_strlit("c-header");
    reveal_strlit("cpp-source");
    reveal_strlit("cpp-header");
    reveal_strlit("objc-source");
    reveal_strlit("objc-plus-plus-source");
    reveal_strlit("swift-source");
    reveal_strlit("shell");
    reveal_strlit("makefile");
    reveal_strlit("javascript");
    reveal_strlit("python-script");
    reveal_strlit("ruby-script");
    reveal_strlit("perl-script");
    reveal_strlit("php-script");
    reveal_strlit("apple-script");
    reveal_strlit("assembly-source");
    reveal_strlit("data");
    reveal_strlit("directory");
    reveal_strlit("folder");
    reveal_strlit("symlink");
    reveal_strlit("executable");
    reveal_strlit("unix-executable");
    reveal_strlit("app-bundle");
    reveal_strlit("framework");
    reveal_strlit("disk-image");
    reveal_strlit("volume");
    reveal_strlit("mount-point");
    reveal_strlit("alias-file");
    reveal_strlit("3d-content");
    reveal_strlit("usd");
    reveal_strlit("usdz");
    reveal_strlit("reality-file");
    reveal_strlit("scenekit-scene");
    reveal_strlit("font");
    reveal_strlit("pkcs12");
    reveal_strlit("x509-certificate");
    reveal_strlit("url");
    reveal_strlit("file-url");
    reveal_strlit("url-bookmark-data");
    reveal_strlit("property-list");
    reveal_strlit("xml-property-list");
    reveal_strlit("binary-property-list");
    reveal_strlit("log");
    assert(normalized(name_spec(SuperType::Bookmark)) =~= "bookmark"@);
    let n = normalized(name_spec(SuperType::Bookmark));
    assert(n != "text"@) by {
        assert("bookmark"@.len() != "text"@.len());
    }
    assert(n != "plain-text"@) by {
        assert("bookmark"@.len() != "plain-text"@.len());
    }
    assert(n != "csv"@) by {
        assert("bookmark"@.len() != "csv"@.len());
    }
    assert(n != "json"@) by {
        assert("bookmark"@.len() != "json"@.len());
    }
    assert(n != "xml"@) by {
        assert("bookmark"@.len() != "xml"@.len());
    }
    assert(n != "yaml"@) by {
        assert("bookmark"@.len() != "yaml"@.len());
    }
    assert(n != "html"@) by {
        assert("bookmark"@.len() != "html"@.len());
    }
    assert(n != "markdown"@) by {
        assert("bookmark"@[0] != "markdown"@[0]);
    }
    assert(n != "rtf"@) by {
        assert("bookmark"@.len() != "rtf"@.len());
    }
    assert(n != "image"@) by {
        assert("bookmark"@.len() != "image"@.len());
    }
    assert(n != "raw-image"@) by {
        assert("bookmark"@.len() != "raw-image"@.len());
    }
    assert(n != "png"@) by {
        assert("bookmark"@.len() != "png"@.len());
    }
    assert(n != "jpeg"@) by {
        assert("bookmark"@.len() != "jpeg"@.len());
    }
    assert(n != "gif"@) by {
        assert("bookmark"@.len() != "gif"@.len());
    }
    assert(n != "tiff"@) by {
        assert("bookmark"@.len() != "tiff"@.len());
    }
    assert(n != "svg"@) by {
        assert("bookmark"@.len() != "svg"@.len());
    }
    assert(n != "webp"@) by {
        assert("bookmark"@.len() != "webp"@.len());
    }
    assert(n != "heic"@) by {
        assert("bookmark"@.len() != "heic"@.len());
    }
    assert(n != "heif"@) by {
        assert("bookmark"@.len() != "heif"@.len());
    }
    assert(n != "bmp"@) by {
        assert("bookmark"@.len() != "bmp"@.len());
    }
    assert(n != "audio"@) by {
        assert("bookmark"@.len() != "audio"@.len());
    }
    assert(n != "mp3"@) by {
        assert("bookmark"@.len() != "mp3"@.len());
    }
    assert(n != "wav"@) by {
        assert("bookmark"@.len() != "wav"@.len());
    }
    assert(n != "aiff"@) by {
        assert("bookmark"@.len() != "aiff"@.len());
    }
    assert(n != "midi"@) by {
        assert("bookmark"@.len() != "midi"@.len());
    }
    assert(n != "mp4-audio"@) by {
        assert("bookmark"@.len() != "mp4-audio"@.len());
    }
    assert(n != "apple-protected-mp4-audio"@) by {
        assert("bookmark"@.len() != "apple-protected-mp4-audio"@.len());
    }
    assert(n != "flac"@) by {
        assert("bookmark"@.len() != "flac"@.len());
    }
    assert(n != "ogg-audio"@) by {
        assert("bookmark"@.len() != "ogg-audio"@.len());
    }
    assert(n != "ac3-audio"@) by {
        assert("bookmark"@.len() != "ac3-audio"@.len());
    }
    assert(n != "aac-audio"@) by {
        assert("bookmark"@.len() != "aac-audio"@.len());
    }
    assert(n != "video"@) by {
        assert("bookmark"@.len() != "video"@.len());
    }
    assert(n != "mpeg2-transport-stream"@) by {
        assert("bookmark"@.len() != "mpeg2-transport-stream"@.len());
    }
    assert(n != "movie"@) by {
        assert("bookmark"@.len() != "movie"@.len());
    }
    assert(n != "quicktime-movie"@) by {
        assert("bookmark"@.len() != "quicktime-movie"@.len());
    }
    assert(n != "mp4-movie"@) by {
        assert("bookmark"@.len() != "mp4-movie"@.len());
    }
    assert(n != "apple-protected-mp4-video"@) by {
        assert("bookmark"@.len() != "apple-protected-mp4-video"@.len());
    }
    assert(n != "mpeg"@) by {
        assert("bookmark"@.len() != "mpeg"@.len());
    }
    assert(n != "mpeg2-video"@) by {
        assert("bookmark"@.len() != "mpeg2-video"@.len());
    }
    assert(n != "avi"@) by {
        assert("bookmark"@.len() != "avi"@.len());
    }
    assert(n != "dv-movie"@) by {
        assert("bookmark"@[0] != "dv-movie"@[0]);
    }
    assert(n != "real-media"@) by {
        assert("bookmark"@.len() != "real-media"@.len());
    }
    assert(n != "real-audio"@) by {
        assert("bookmark"@.len() != "real-audio"@.len());
    }
    assert(n != "webm"@) by {
        assert("bookmark"@.len() != "webm"@.len());
    }
    assert(n != "matroska"@) by {
        assert("bookmark"@[0] != "matroska"@[0]);
    }
    assert(n != "m3u-playlist"@) by {
        assert("bookmark"@.len() != "m3u-playlist"@.len());
    }
    assert(n != "archive"@) by {
        assert("bookmark"@.len() != "archive"@.len());
    }
    assert(n != "zip"@) by {
        assert("bookmark"@.len() != "zip"@.len());
    }
    assert(n != "gzip"@) by {
        assert("bookmark"@.len() != "gzip"@.len());
    }
    assert(n != "tar"@) by {
        assert("bookmark"@.len() != "tar"@.len());
    }
    assert(n != "bz2"@) by {
        assert("bookmark"@.len() != "bz2"@.len());
    }
    assert(n != "apple-archive"@) by {
        assert("bookmark"@.len() != "apple-archive"@.len());
    }
    assert(n != "sourcecode"@) by {
        assert("bookmark"@.len() != "sourcecode"@.len());
    }
    assert(n != "c-source"@) by {
        assert("bookmark"@[0] != "c-source"@[0]);
    }
    assert(n != "c-header"@) by {
        assert("bookmark"@[0] != "c-header"@[0]);
    }
    assert(n != "cpp-source"@) by {
        assert("bookmark"@.len() != "cpp-source"@.len());
    }
    assert(n != "cpp-header"@) by {
        assert("bookmark"@.len() != "cpp-header"@.len());
    }
    assert(n != "objc-source"@) by {
        assert("bookmark"@.len() != "objc-source"@.len());
    }
    assert(n != "objc-plus-plus-source"@) by {
        assert("bookmark"@.len() != "objc-plus-plus-source"@.len());
    }
    assert(n != "swift-source"@) by {
        assert("bookmark"@.len() != "swift-source"@.len());
    }
    assert(n != "shell"@) by {
        assert("bookmark"@.len() != "shell"@.len());
    }
    assert(n != "makefile"@) by {
        assert("bookmark"@[0] != "makefile"@[0]);
    }
    assert(n != "javascript"@) by {
        assert("bookmark"@.len() != "javascript"@.len());
    }
    assert(n != "python-script"@) by {
        assert("bookmark"@.len() != "python-script"@.len());
    }
    assert(n != "ruby-script"@) by {
        assert("bookmark"@.len() != "ruby-script"@.len());
    }
    assert(n != "perl-script"@) by {
        assert("bookmark"@.len() != "perl-script"@.len());
    }
    assert(n != "php-script"@) by {
        assert("bookmark"@.len() != "php-script"@.len());
    }
    assert(n != "apple-script"@) by {
        assert("bookmark"@.len() != "apple-script"@.len());
    }
    assert(n != "assembly-source"@) by {
        assert("bookmark"@.len() != "assembly-source"@.len());
    }
    assert(n != "data"@) by {
        assert("bookmark"@.len() != "data"@.len());
    }
    assert(n != "directory"@) by {
        assert("bookmark"@.len() != "directory"@.len());
    }
    assert(n != "folder"@) by {
        assert("bookmark"@.len() != "folder"@.len());
    }
    assert(n != "symlink"@) by {
        assert("bookmark"@.len() != "symlink"@.len());
    }
    assert(n != "executable"@) by {
        assert("bookmark"@.len() != "executable"@.len());
    }
    assert(n != "unix-executable"@) by {
        assert("bookmark"@.len() != "unix-executable"@.len());
    }
    assert(n != "app-bundle"@) by {
        assert("bookmark"@.len() != "app-bundle"@.len());
    }
    assert(n != "framework"@) by {
        assert("bookmark"@.len() != "framework"@.len());
    }
    assert(n != "disk-image"@) by {
        assert("bookmark"@.len() != "disk-image"@.len());
    }
    assert(n != "volume"@) by {
        assert("bookmark"@.len() != "volume"@.len());
    }
    assert(n != "mount-point"@) by {
        assert("bookmark"@.len() != "mount-point"@.len());
    }
    assert(n != "alias-file"@) by {
        assert("bookmark"@.len() != "alias-file"@.len());
    }
    assert(n != "3d-content"@) by {
        assert("bookmark"@.len() != "3d-content"@.len());
    }
    assert(n != "usd"@) by {
        assert("bookmark"@.len() != "usd"@.len());
    }
    assert(n != "usdz"@) by {
        assert("bookmark"@.len() != "usdz"@.len());
    }
    assert(n != "reality-file"@) by {
        assert("bookmark"@.len() != "reality-file"@.len());
    }
    assert(n != "scenekit-scene"@) by {
        assert("bookmark"@.len() != "scenekit-scene"@.len());
    }
    assert(n != "font"@) by {
        assert("bookmark"@.len() != "font"@.len());
    }
    assert(n != "pkcs12"@) by {
        assert("bookmark"@.len() != "pkcs12"@.len());
    }
    assert(n != "x509-certificate"@) by {
        assert("bookmark"@.len() != "x509-certificate"@.len());
    }
    assert(n != "url"@) by {
        assert("bookmark"@.len() != "url"@.len());
    }
    assert(n != "file-url"@) by {
        assert("bookmark"@[0] != "file-url"@[0]);
    }
    assert(n != "url-bookmark-data"@) by {
        assert("bookmark"@.len() != "url-bookmark-data"@.len());
    }
    assert(n != "property-list"@) by {
        assert("bookmark"@.len() != "property-list"@.len());
    }
    assert(n != "xml-property-list"@) by {
        assert("bookmark"@.len() != "xml-property-list"@.len());
    }
    assert(n != "binary-property-list"@) by {
        assert("bookmark"@.len() != "binary-property-list"@.len());
    }
    assert(n != "log"@) by {
        assert("bookmark"@.len() != "log"@.len());
    }
    assert(parse_spec(n) == Some(SuperType::Bookmark));
}

proof fn lemma_display_parse_internetlocation()
    ensures
        parse_spec(normalized(name_spec(SuperType::InternetLocation))) == Some(SuperType::InternetLocation),
{
    reveal_strlit("internet-location");
    reveal_strlit("text");
    reveal_strlit("plain-text");
    reveal_strlit("csv");
    reveal_strlit("json");
    reveal_strlit("xml");
    reveal_strlit("yaml");
    reveal_strlit("html");
    reveal_strlit("markdown");
    reveal_strlit("rtf");
    reveal_strlit("image");
    reveal_strlit("raw-image");
    reveal_strlit("png");
    reveal_strlit("jpeg");
    reveal_strlit("gif");
    reveal_strlit("tiff");
    reveal_strlit("svg");
    reveal_strlit("webp");
    reveal_strlit("heic");
    reveal_strlit("heif");
    reveal_strlit("bmp");
    reveal_strlit("audio");
    reveal_strlit("mp3");
    reveal_strlit("wav");
    reveal_strlit("aiff");
    reveal_strlit("midi");
    reveal_strlit("mp4-audio");
    reveal_strlit("apple-protected-mp4-audio");
    reveal_strlit("flac");
    reveal_strlit("ogg-audio");
    reveal_strlit("ac3-audio");
    reveal_strlit("aac-audio");
    reveal_strlit("video");
    reveal_strlit("mpeg2-transport-stream");
    reveal_strlit("movie");
    reveal_strlit("quicktime-movie");
    reveal_strlit("mp4-movie");
    reveal_strlit("apple-protected-mp4-video");
    reveal_strlit("mpeg");
    reveal_strlit("mpeg2-video");
    reveal_strlit("avi");
    reveal_strlit("dv-movie");
    reveal_strlit("real-media");
    reveal_strlit("real-audio");
    reveal_strlit("webm");
    reveal_strlit("matroska");
    reveal_strlit("m3u-playlist");
    reveal_strlit("archive");
    reveal_strlit("zip");
    reveal_strlit("gzip");
    reveal_strlit("tar");
    reveal_strlit("bz2");
    reveal_strlit("apple-archive");
    reveal_strlit("sourcecode");
    reveal_strlit("c-source");
    reveal_strlit("c-header");
    reveal_strlit("cpp-source");
    reveal_strlit("cpp-header");
    reveal_strlit("objc-source");
    reveal_strlit("objc-plus-plus-source");
    reveal_strlit("swift-source");
    reveal_strlit("shell");
    reveal_strlit("makefile");
    reveal_strlit("javascript");
    reveal_strlit("python-script");
    reveal_strlit("ruby-script");
    reveal_strlit("perl-script");
    reveal_strlit("php-script");
    reveal_strlit("apple-script");
    reveal_strlit("assembly-source");
    reveal_strlit("data");
    reveal_strlit("directory");
    reveal_strlit("folder");
    reveal_strlit("symlink");
    reveal_strlit("executable");
    reveal_strlit("unix-executable");
    reveal_strlit("app-bundle");
    reveal_strlit("framework");
    reveal_strlit("disk-image");
    reveal_strlit("volume");
    reveal_strlit("mount-point");
    reveal_strlit("alias-file");
    reveal_strlit("3d-content");
    reveal_strlit("usd");
    reveal_strlit("usdz");
    reveal_strlit("reality-file");
    reveal_strlit("scenekit-scene");
    reveal_strlit("font");
    reveal_strlit("pkcs12");
    reveal_strlit("x509-certificate");
    reveal_strlit("url");
    reveal_strlit("file-url");
    reveal_strlit("url-bookmark-data");
    reveal_strlit("property-list");
    reveal_strlit("xml-property-list");
    reveal_strlit("binary-property-list");
    reveal_strlit("log");
    reveal_strlit("bookmark");
    assert(normalized(name_spec(SuperType::InternetLocation)) =~= "internet-location"@);
    let n = normalized(name_spec(SuperType::InternetLocation));
    assert(n != "text"@) by {
        assert("internet-location"@.len() != "text"@.len());
    }
    assert(n != "plain-text"@) by {
        assert("internet-location"@.len() != "plain-text"@.len());
    }
    assert(n != "csv"@) by {
        assert("internet-location"@.len() != "csv"@.len());
    }
    assert(n != "json"@) by {
        assert("internet-location"@.len() != "json"@.len());
    }
    assert(n != "xml"@) by {
        assert("internet-location"@.len() != "xml"@.len());
    }
    assert(n != "yaml"@) by {
        assert("internet-location"@.len() != "yaml"@.len());
    }
    assert(n != "html"@) by {
        assert("internet-location"@.len() != "html"@.len());
    }
    assert(n != "markdown"@) by {
        assert("internet-location"@.len() != "markdown"@.len());
    }
    assert(n != "rtf"@) by {
        assert("internet-location"@.len() != "rtf"@.len());
    }
    assert(n != "image"@) by {
        assert("internet-location"@.len() != "image"@.len());
    }
    assert(n != "raw-image"@) by {
        assert("internet-location"@.len() != "raw-image"@.len());
    }
    assert(n != "png"@) by {
        assert("internet-location"@.len() != "png"@.len());
    }
    assert(n != "jpeg"@) by {
        assert("internet-location"@.len() != "jpeg"@.len());
    }
    assert(n != "gif"@) by {
        assert("internet-location"@.len() != "gif"@.len());
    }
    assert(n != "tiff"@) by {
        assert("internet-location"@.len() != "tiff"@.len());
    }
    assert(n != "svg"@) by {
        assert("internet-location"@.len() != "svg"@.len());
    }
    assert(n != "webp"@) by {
        assert("internet-location"@.len() != "webp"@.len());
    }
    assert(n != "heic"@) by {
        assert("internet-location"@.len() != "heic"@.len());
    }
    assert(n != "heif"@) by {
        assert("internet-location"@.len() != "heif"@.len());
    }
    assert(n != "bmp"@) by {
        assert("internet-location"@.len() != "bmp"@.len());
    }
    assert(n != "audio"@) by {
        assert("internet-location"@.len() != "audio"@.len());
    }
    assert(n != "mp3"@) by {
        assert("internet-location"@.len() != "mp3"@.len());
    }
    assert(n != "wav"@) by {
        assert("internet-location"@.len() != "wav"@.len());
    }
    assert(n != "aiff"@) by {
        assert("internet-location"@.len() != "aiff"@.len());
    }
    assert(n != "midi"@) by {
        assert("internet-location"@.len() != "midi"@.len());
    }
    assert(n != "mp4-audio"@) by {
        assert("internet-location"@.len() != "mp4-audio"@.len());
    }
    assert(n != "apple-protected-mp4-audio"@) by {
        assert("internet-location"@.len() != "apple-protected-mp4-audio"@.len());
    }
    assert(n != "flac"@) by {
        assert("internet-location"@.len() != "flac"@.len());
    }
    assert(n != "ogg-audio"@) by {
        assert("internet-location"@.len() != "ogg-audio"@.len());
    }
    assert(n != "ac3-audio"@) by {
        assert("internet-location"@.len() != "ac3-audio"@.len());
    }
    assert(n != "aac-audio"@) by {
        assert("internet-location"@.len() != "aac-audio"@.len());
    }
    assert(n != "video"@) by {
        assert("internet-location"@.len() != "video"@.len());
    }
    assert(n != "mpeg2-transport-stream"@) by {
        assert("internet-location"@.len() != "mpeg2-transport-stream"@.len());
    }
    assert(n != "movie"@) by {
        assert("internet-location"@.len() != "movie"@.len());
    }
    assert(n != "quicktime-movie"@) by {
        assert("internet-location"@.len() != "quicktime-movie"@.len());
    }
    assert(n != "mp4-movie"@) by {
        assert("internet-location"@.len() != "mp4-movie"@.len());
    }
    assert(n != "apple-protected-mp4-video"@) by {
        assert("internet-location"@.len() != "apple-protected-mp4-video"@.len());
    }
    assert(n != "mpeg"@) by {
        assert("internet-location"@.len() != "mpeg"@.len());
    }
    assert(n != "mpeg2-video"@) by {
        assert("internet-location"@.len() != "mpeg2-video"@.len());
    }
    assert(n != "avi"@) by {
        assert("internet-location"@.len() != "avi"@.len());
    }
    assert(n != "dv-movie"@) by {
        assert("internet-location"@.len() != "dv-movie"@.len());
    }
    assert(n != "real-media"@) by {
        assert("internet-location"@.len() != "real-media"@.len());
    }
    assert(n != "real-audio"@) by {
        assert("internet-location"@.len() != "real-audio"@.len());
    }
    assert(n != "webm"@) by {
        assert("internet-location"@.len() != "webm"@.len());
    }
    assert(n != "matroska"@) by {
        assert("internet-location"@.len() != "matroska"@.len());
    }
    assert(n != "m3u-playlist"@) by {
        assert("internet-location"@.len() != "m3u-playlist"@.len());
    }
    assert(n != "archive"@) by {
        assert("internet-location"@.len() != "archive"@.len());
    }
    assert(n != "zip"@) by {
        assert("internet-location"@.len() != "zip"@.len());
    }
    assert(n != "gzip"@) by {
        assert("internet-location"@.len() != "gzip"@.len());
    }
    assert(n != "tar"@) by {
        assert("internet-location"@.len() != "tar"@.len());
    }
    assert(n != "bz2"@) by {
        assert("internet-location"@.len() != "bz2"@.len());
    }
    assert(n != "apple-archive"@) by {
        assert("internet-location"@.len() != "apple-archive"@.len());
    }
    assert(n != "sourcecode"@) by {
        assert("internet-location"@.len() != "sourcecode"@.len());
    }
    assert(n != "c-source"@) by {
        assert("internet-location"@.len() != "c-source"@.len());
    }
    assert(n != "c-header"@) by {
        assert("internet-location"@.len() != "c-header"@.len());
    }
    assert(n != "cpp-source"@) by {
        assert("internet-location"@.len() != "cpp-source"@.len());
    }
    assert(n != "cpp-header"@) by {
        assert("internet-location"@.len() != "cpp-header"@.len());
    }
    assert(n != "objc-source"@) by {
        assert("internet-location"@.len() != "objc-source"@.len());
    }
    assert(n != "objc-plus-plus-source"@) by {
        assert("internet-location"@.len() != "objc-plus-plus-source"@.len());
    }
    assert(n != "swift-source"@) by {
        assert("internet-location"@.len() != "swift-source"@.len());
    }
    assert(n != "shell"@) by {
        assert("internet-location"@.len() != "shell"@.len());
    }
    assert(n != "makefile"@) by {
        assert("internet-location"@.len() != "makefile"@.len());
    }
    assert(n != "javascript"@) by {
        assert("internet-location"@.len() != "javascript"@.len());
    }
    assert(n != "python-script"@) by {
        assert("internet-location"@.len() != "python-script"@.len());
    }
    assert(n != "ruby-script"@) by {
        assert("internet-location"@.len() != "ruby-script"@.len());
    }
    assert(n != "perl-script"@) by {
        assert("internet-location"@.len() != "perl-script"@.len());
    }
    assert(n != "php-script"@) by {
        assert("internet-location"@.len() != "php-script"@.len());
    }
    assert(n != "apple-script"@) by {
        assert("internet-location"@.len() != "apple-script"@.len());
    }
    assert(n != "assembly-source"@) by {
        assert("internet-location"@.len() != "assembly-source"@.len());
    }
    assert(n != "data"@) by {
        assert("internet-location"@.len() != "data"@.len());
    }
    assert(n != "directory"@) by {
        assert("internet-location"@.len() != "directory"@.len());
    }
    assert(n != "folder"@) by {
        assert("internet-location"@.len() != "folder"@.len());
    }
    assert(n != "symlink"@) by {
        assert("internet-location"@.len() != "symlink"@.len());
    }
    assert(n != "executable"@) by {
        assert("internet-location"@.len() != "executable"@.len());
    }
    assert(n != "unix-executable"@) by {
        assert("internet-location"@.len() != "unix-executable"@.len());
    }
    assert(n != "app-bundle"@) by {
        assert("internet-location"@.len() != "app-bundle"@.len());
    }
    assert(n != "framework"@) by {
        assert("internet-location"@.len() != "framework"@.len());
    }
    assert(n != "disk-image"@) by {
        assert("internet-location"@.len() != "disk-image"@.len());
    }
    assert(n != "volume"@) by {
        assert("internet-location"@.len() != "volume"@.len());
    }
    assert(n != "mount-point"@) by {
        assert("internet-location"@.len() != "mount-point"@.len());
    }
    assert(n != "alias-file"@) by {
        assert("internet-location"@.len() != "alias-file"@.len());
    }
    assert(n != "3d-content"@) by {
        assert("internet-location"@.len() != "3d-content"@.len());
    }
    assert(n != "usd"@) by {
        assert("internet-location"@.len() != "usd"@.len());
    }
    assert(n != "usdz"@) by {
        assert("internet-location"@.len() != "usdz"@.len());
    }
    assert(n != "reality-file"@) by {
        assert("internet-location"@.len() != "reality-file"@.len());
    }
    assert(n != "scenekit-scene"@) by {
        assert("internet-location"@.len() != "scenekit-scene"@.len());
    }
    assert(n != "font"@) by {
        assert("internet-location"@.len() != "font"@.len());
    }
    assert(n != "pkcs12"@) by {
        assert("internet-location"@.len() != "pkcs12"@.len());
    }
    assert(n != "x509-certificate"@) by {
        assert("internet-location"@.len() != "x509-certificate"@.len());
    }
    assert(n != "url"@) by {
        assert("internet-location"@.len() != "url"@.len());
    }
    assert(n != "file-url"@) by {
        assert("internet-location"@.len() != "file-url"@.len());
    }
    assert(n != "url-bookmark-data"@) by {
        assert("internet-location"@[0] != "url-bookmark-data"@[0]);
    }
    assert(n != "property-list"@) by {
        assert("internet-location"@.len() != "property-list"@.len());
    }
    assert(n != "xml-property-list"@) by {
        assert("internet-location"@[0] != "xml-property-list"@[0]);
    }
    assert(n != "binary-property-list"@) by {
        assert("internet-location"@.len() != "binary-property-list"@.len());
    }
    assert(n != "log"@) by {
        assert("internet-location"@.len() != "log"@.len());
    }
    assert(n != "bookmark"@) by {
        assert("internet-location"@.len() != "bookmark"@.len());
    }
    assert(parse_spec(n) == Some(SuperType::InternetLocation));
}

proof fn lemma_display_parse_internetshortcut()
    ensures
        parse_spec(normalized(name_spec(SuperType::InternetShortcut))) == Some(SuperType::InternetShortcut),
{
    reveal_strlit("internet-shortcut");
    reveal_strlit("text");
    reveal_strlit("plain-text");
    reveal_strlit("csv");
    reveal_strlit("json");
    reveal_strlit("xml");
    reveal_strlit("yaml");
    reveal_strlit("html");
    reveal_strlit("markdown");
    reveal_strlit("rtf");
    reveal_strlit("image");
    reveal_strlit("raw-image");
    reveal_strlit("png");
    reveal_strlit("jpeg");
    reveal_strlit("gif");
    reveal_strlit("tiff");
    reveal_strlit("svg");
    reveal_strlit("webp");
    reveal_strlit("heic");
    reveal_strlit("heif");
    reveal_strlit("bmp");
    reveal_strlit("audio");
    reveal_strlit("mp3");
    reveal_strlit("wav");
    reveal_strlit("aiff");
    reveal_strlit("midi");
    reveal_strlit("mp4-audio");
    reveal_strlit("apple-protected-mp4-audio");
    reveal_strlit("flac");
    reveal_strlit("ogg-audio");
    reveal_strlit("ac3-audio");
    reveal_strlit("aac-audio");
    reveal_strlit("video");
    reveal_strlit("mpeg2-transport-stream");
    reveal_strlit("movie");
    reveal_strlit("quicktime-movie");
    reveal_strlit("mp4-movie");
    reveal_strlit("apple-protected-mp4-video");
    reveal_strlit("mpeg");
    reveal_strlit("mpeg2-video");
    reveal_strlit("avi");
    reveal_strlit("dv-movie");
    reveal_strlit("real-media");
    reveal_strlit("real-audio");
    reveal_strlit("webm");
    reveal_strlit("matroska");
    reveal_strlit("m3u-playlist");
    reveal_strlit("archive");
    reveal_strlit("zip");
    reveal_strlit("gzip");
    reveal_strlit("tar");
    reveal_strlit("bz2");
    reveal_strlit("apple-archive");
    reveal_strlit("sourcecode");
    reveal_strlit("c-source");
    reveal_strlit("c-header");
    reveal_strlit("cpp-source");
    reveal_strlit("cpp-header");
    reveal_strlit("objc-source");
    reveal_strlit("objc-plus-plus-source");
    reveal_strlit("swift-source");
    reveal_strlit("shell");
    reveal_strlit("makefile");
    reveal_strlit("javascript");
    reveal_strlit("python-script");
    reveal_strlit("ruby-script");
    reveal_strlit("perl-script");
    reveal_strlit("php-script");
    reveal_strlit("apple-script");
    reveal_strlit("assembly-source");
    reveal_strlit("data");
    reveal_strlit("directory");
    reveal_strlit("folder");
    reveal_strlit("symlink");
    reveal_strlit("executable");
    reveal_strlit("unix-executable");
    reveal_strlit("app-bundle");
    reveal_strlit("framework");
    reveal_strlit("disk-image");
    reveal_strlit("volume");
    reveal_strlit("mount-point");
    reveal_strlit("alias-file");
    reveal_strlit("3d-content");
    reveal_strlit("usd");
    reveal_strlit("usdz");
    reveal_strlit("reality-file");
    reveal_strlit("scenekit-scene");
    reveal_strlit("font");
    reveal_strlit("pkcs12");
    reveal_strlit("x509-certificate");
    reveal_strlit("url");
    reveal_strlit("file-url");
    reveal_strlit("url-bookmark-data");
    reveal_strlit("property-list");
    reveal_strlit("xml-property-list");
    reveal_strlit("binary-property-list");
    reveal_strlit("log");
    reveal_strlit("bookmark");
    reveal_strlit("internet-location");
    assert(normalized(name_spec(SuperType::InternetShortcut)) =~= "internet-shortcut"@);
    let n = normalized(name_spec(SuperType::InternetShortcut));
    assert(n != "text"@) by {
        assert("internet-shortcut"@.len() != "text"@.len());
    }
    assert(n != "plain-text"@) by {
        assert("internet-shortcut"@.len() != "plain-text"@.len());
    }
    assert(n != "csv"@) by {
        assert("internet-shortcut"@.len() != "csv"@.len());
    }
    assert(n != "json"@) by {
        assert("internet-shortcut"@.len() != "json"@.len());
    }
    assert(n != "xml"@) by {
        assert("internet-shortcut"@.len() != "xml"@.len());
    }
    assert(n != "yaml"@) by {
        assert("internet-shortcut"@.len() != "yaml"@.len());
    }
    assert(n != "html"@) by {
        assert("internet-shortcut"@.len() != "html"@.len());
    }
    assert(n != "markdown"@) by {
        assert("internet-shortcut"@.len() != "markdown"@.len());
    }
    assert(n != "rtf"@) by {
        assert("internet-shortcut"@.len() != "rtf"@.len());
    }
    assert(n != "image"@) by {
        assert("internet-shortcut"@.len() != "image"@.len());
    }
    assert(n != "raw-image"@) by {
        assert("internet-shortcut"@.len() != "raw-image"@.len());
    }
    assert(n != "png"@) by {
        assert("internet-shortcut"@.len() != "png"@.len());
    }
    assert(n != "jpeg"@) by {
        assert("internet-shortcut"@.len() != "jpeg"@.len());
    }
    assert(n != "gif"@) by {
        assert("internet-shortcut"@.len() != "gif"@.len());
    }
    assert(n != "tiff"@) by {
        assert("internet-shortcut"@.len() != "tiff"@.len());
    }
    assert(n != "svg"@) by {
        assert("internet-shortcut"@.len() != "svg"@.len());
    }
    assert(n != "webp"@) by {
        assert("internet-shortcut"@.len() != "webp"@.len());
    }
    assert(n != "heic"@) by {
        assert("internet-shortcut"@.len() != "heic"@.len());
    }
    assert(n != "heif"@) by {
        assert("internet-shortcut"@.len() != "heif"@.len());
    }
    assert(n != "bmp"@) by {
        assert("internet-shortcut"@.len() != "bmp"@.len());
    }
    assert(n != "audio"@) by {
        assert("internet-shortcut"@.len() != "audio"@.len());
    }
    assert(n != "mp3"@) by {
        assert("internet-shortcut"@.len() != "mp3"@.len());
    }
    assert(n != "wav"@) by {
        assert("internet-shortcut"@.len() != "wav"@.len());
    }
    assert(n != "aiff"@) by {
        assert("internet-shortcut"@.len() != "aiff"@.len());
    }
    assert(n != "midi"@) by {
        assert("internet-shortcut"@.len() != "midi"@.len());
    }
    assert(n != "mp4-audio"@) by {
        assert("internet-shortcut"@.len() != "mp4-audio"@.len());
    }
    assert(n != "apple-protected-mp4-audio"@) by {
        assert("internet-shortcut"@.len() != "apple-protected-mp4-audio"@.len());
    }
    assert(n != "flac"@) by {
        assert("internet-shortcut"@.len() != "flac"@.len());
    }
    assert(n != "ogg-audio"@) by {
        assert("internet-shortcut"@.len() != "ogg-audio"@.len());
    }
    assert(n != "ac3-audio"@) by {
        assert("internet-shortcut"@.len() != "ac3-audio"@.len());
    }
    assert(n != "aac-audio"@) by {
        assert("internet-shortcut"@.len() != "aac-audio"@.len());
    }
    assert(n != "video"@) by {
        assert("internet-shortcut"@.len() != "video"@.len());
    }
    assert(n != "mpeg2-transport-stream"@) by {
        assert("internet-shortcut"@.len() != "mpeg2-transport-stream"@.len());
    }
    assert(n != "movie"@) by {
        assert("internet-shortcut"@.len() != "movie"@.len());
    }
    assert(n != "quicktime-movie"@) by {
        assert("internet-shortcut"@.len() != "quicktime-movie"@.len());
    }
    assert(n != "mp4-movie"@) by {
        assert("internet-shortcut"@.len() != "mp4-movie"@.len());
    }
    assert(n != "apple-protected-mp4-video"@) by {
        assert("internet-shortcut"@.len() != "apple-protected-mp4-video"@.len());
    }
    assert(n != "mpeg"@) by {
        assert("internet-shortcut"@.len() != "mpeg"@.len());
    }
    assert(n != "mpeg2-video"@) by {
        assert("internet-shortcut"@.len() != "mpeg2-video"@.len());
    }
    assert(n != "avi"@) by {
        assert("internet-shortcut"@.len() != "avi"@.len());
    }
    assert(n != "dv-movie"@) by {
        assert("internet-shortcut"@.len() != "dv-movie"@.len());
    }
    assert(n != "real-media"@) by {
        assert("internet-shortcut"@.len() != "real-media"@.len());
    }
    assert(n != "real-audio"@) by {
        assert("internet-shortcut"@.len() != "real-audio"@.len());
    }
    assert(n != "webm"@) by {
        assert("internet-shortcut"@.len() != "webm"@.len());
    }
    assert(n != "matroska"@) by {
        assert("internet-shortcut"@.len() != "matroska"@.len());
    }
    assert(n != "m3u-playlist"@) by {
        assert("internet-shortcut"@.len() != "m3u-playlist"@.len());
    }
    assert(n != "archive"@) by {
        assert("internet-shortcut"@.len() != "archive"@.len());
    }
    assert(n != "zip"@) by {
        assert("internet-shortcut"@.len() != "zip"@.len());
    }
    assert(n != "gzip"@) by {
        assert("internet-shortcut"@.len() != "gzip"@.len());
    }
    assert(n != "tar"@) by {
        assert("internet-shortcut"@.len() != "tar"@.len());
    }
    assert(n != "bz2"@) by {
        assert("internet-shortcut"@.len() != "bz2"@.len());
    }
    assert(n != "apple-archive"@) by {
        assert("internet-shortcut"@.len() != "apple-archive"@.len());
    }
    assert(n != "sourcecode"@) by {
        assert("internet-shortcut"@.len() != "sourcecode"@.len());
    }
    assert(n != "c-source"@) by {
        assert("internet-shortcut"@.len() != "c-source"@.len());
    }
    assert(n != "c-header"@) by {
        assert("internet-shortcut"@.len() != "c-header"@.len());
    }
    assert(n != "cpp-source"@) by {
        assert("internet-shortcut"@.len() != "cpp-source"@.len());
    }
    assert(n != "cpp-header"@) by {
        assert("internet-shortcut"@.len() != "cpp-header"@.len());
    }
    assert(n != "objc-source"@) by {
        assert("internet-shortcut"@.len() != "objc-source"@.len());
    }
    assert(n != "objc-plus-plus-source"@) by {
        assert("internet-shortcut"@.len() != "objc-plus-plus-source"@.len());
    }
    assert(n != "swift-source"@) by {
        assert("internet-shortcut"@.len() != "swift-source"@.len());
    }
    assert(n != "shell"@) by {
        assert("internet-shortcut"@.len() != "shell"@.len());
    }
    assert(n != "makefile"@) by {
        assert("internet-shortcut"@.len() != "makefile"@.len());
    }
    assert(n != "javascript"@) by {
        assert("internet-shortcut"@.len() != "javascript"@.len());
    }
    assert(n != "python-script"@) by {
        assert("internet-shortcut"@.len() != "python-script"@.len());
    }
    assert(n != "ruby-script"@) by {
        assert("internet-shortcut"@.len() != "ruby-script"@.len());
    }
    assert(n != "perl-script"@) by {
        assert("internet-shortcut"@.len() != "perl-script"@.len());
    }
    assert(n != "php-script"@) by {
        assert("internet-shortcut"@.len() != "php-script"@.len());
    }
    assert(n != "apple-script"@) by {
        assert("internet-shortcut"@.len() != "apple-script"@.len());
    }
    assert(n != "assembly-source"@) by {
        assert("internet-shortcut"@.len() != "assembly-source"@.len());
    }
    assert(n != "data"@) by {
        assert("internet-shortcut"@.len() != "data"@.len());
    }
    assert(n != "directory"@) by {
        assert("internet-shortcut"@.len() != "directory"@.len());
    }
    assert(n != "folder"@) by {
        assert("internet-shortcut"@.len() != "folder"@.len());
    }
    assert(n != "symlink"@) by {
        assert("internet-shortcut"@.len() != "symlink"@.len());
    }
    assert(n != "executable"@) by {
        assert("internet-shortcut"@.len() != "executable"@.len());
    }
    assert(n != "unix-executable"@) by {
        assert("internet-shortcut"@.len() != "unix-executable"@.len());
    }
    assert(n != "app-bundle"@) by {
        assert("internet-shortcut"@.len() != "app-bundle"@.len());
    }
    assert(n != "framework"@) by {
        assert("internet-shortcut"@.len() != "framework"@.len());
    }
    assert(n != "disk-image"@) by {
        assert("internet-shortcut"@.len() != "disk-image"@.len());
    }
    assert(n != "volume"@) by {
        assert("internet-shortcut"@.len() != "volume"@.len());
    }
    assert(n != "mount-point"@) by {
        assert("internet-shortcut"@.len() != "mount-point"@.len());
    }
    assert(n != "alias-file"@) by {
        assert("internet-shortcut"@.len() != "alias-file"@.len());
    }
    assert(n != "3d-content"@) by {
        assert("internet-shortcut"@.len() != "3d-content"@.len());
    }
    assert(n != "usd"@) by {
        assert("internet-shortcut"@.len() != "usd"@.len());
    }
    assert(n != "usdz"@) by {
        assert("internet-shortcut"@.len() != "usdz"@.len());
    }
    assert(n != "reality-file"@) by {
        assert("internet-shortcut"@.len() != "reality-file"@.len());
    }
    assert(n != "scenekit-scene"@) by {
        assert("internet-shortcut"@.len() != "scenekit-scene"@.len());
    }
    assert(n != "font"@) by {
        assert("internet-shortcut"@.len() != "font"@.len());
    }
    assert(n != "pkcs12"@) by {
        assert("internet-shortcut"@.len() != "pkcs12"@.len());
    }
    assert(n != "x509-certificate"@) by {
        assert("internet-shortcut"@.len() != "x509-certificate"@.len());
    }
    assert(n != "url"@) by {
        assert("internet-shortcut"@.len() != "url"@.len());
    }
    assert(n != "file-url"@) by {
        assert("internet-shortcut"@.len() != "file-url"@.len());
    }
    assert(n != "url-bookmark-data"@) by {
        assert("internet-shortcut"@[0] != "url-bookmark-data"@[0]);
    }
    assert(n != "property-list"@) by {
        assert("internet-shortcut"@.len() != "property-list"@.len());
    }
    assert(n != "xml-property-list"@) by {
        assert("internet-shortcut"@[0] != "xml-property-list"@[0]);
    }
    assert(n != "binary-property-list"@) by {
        assert("internet-shortcut"@.len() != "binary-property-list"@.len());
    }
    assert(n != "log"@) by {
        assert("internet-shortcut"@.len() != "log"@.len());
    }
    assert(n != "bookmark"@) by {
        assert("internet-shortcut"@.len() != "bookmark"@.len());
    }
    assert(n != "internet-location"@) by {
        assert("internet-shortcut"@[9] != "internet-location"@[9]);
    }
    assert(parse_spec(n) == Some(SuperType::InternetShortcut));
}

proof fn lemma_display_parse_defaultappwebbrowser()
    ensures
        parse_spec(normalized(name_spec(SuperType::DefaultAppWebBrowser))) == Some(SuperType::DefaultAppWebBrowser),
{
    reveal_strlit("default-app-web-browser");
    reveal_strlit("text");
    reveal_strlit("plain-text");
    reveal_strlit("csv");
    reveal_strlit("json");
    reveal_strlit("xml");
    reveal_strlit("yaml");
    reveal_strlit("html");
    reveal_strlit("markdown");
    reveal_strlit("rtf");
    reveal_strlit("image");
    reveal_strlit("raw-image");
    reveal_strlit("png");
    reveal_strlit("jpeg");
    reveal_strlit("gif");
    reveal_strlit("tiff");
    reveal_strlit("svg");
    reveal_strlit("webp");
    reveal_strlit("heic");
    reveal_strlit("heif");
    reveal_strlit("bmp");
    reveal_strlit("audio");
    reveal_strlit("mp3");
    reveal_strlit("wav");
    reveal_strlit("aiff");
    reveal_strlit("midi");
    reveal_strlit("mp4-audio");
    reveal_strlit("apple-protected-mp4-audio");
    reveal_strlit("flac");
    reveal_strlit("ogg-audio");
    reveal_strlit("ac3-audio");
    reveal_strlit("aac-audio");
    reveal_strlit("video");
    reveal_strlit("mpeg2-transport-stream");
    reveal_strlit("movie");
    reveal_strlit("quicktime-movie");
    reveal_strlit("mp4-movie");
    reveal_strlit("apple-protected-mp4-video");
    reveal_strlit("mpeg");
    reveal_strlit("mpeg2-video");
    reveal_strlit("avi");
    reveal_strlit("dv-movie");
    reveal_strlit("real-media");
    reveal_strlit("real-audio");
    reveal_strlit("webm");
    reveal_strlit("matroska");
    reveal_strlit("m3u-playlist");
    reveal_strlit("archive");
    reveal_strlit("zip");
    reveal_strlit("gzip");
    reveal_strlit("tar");
    reveal_strlit("bz2");
    reveal_strlit("apple-archive");
    reveal_strlit("sourcecode");
    reveal_strlit("c-source");
    reveal_strlit("c-header");
    reveal_strlit("cpp-source");
    reveal_strlit("cpp-header");
    reveal_strlit("objc-source");
    reveal_strlit("objc-plus-plus-source");
    reveal_strlit("swift-source");
    reveal_strlit("shell");
    reveal_strlit("makefile");
    reveal_strlit("javascript");
    reveal_strlit("python-script");
    reveal_strlit("ruby-script");
    reveal_strlit("perl-script");
    reveal_strlit("php-script");
    reveal_strlit("apple-script");
    reveal_strlit("assembly-source");
    reveal_strlit("data");
    reveal_strlit("directory");
    reveal_strlit("folder");
    reveal_strlit("symlink");
    reveal_strlit("executable");
    reveal_strlit("unix-executable");
    reveal_strlit("app-bundle");
    reveal_strlit("framework");
    reveal_strlit("disk-image");
    reveal_strlit("volume");
    reveal_strlit("mount-point");
    reveal_strlit("alias-file");
    reveal_strlit("3d-content");
    reveal_strlit("usd");
    reveal_strlit("usdz");
    reveal_strlit("reality-file");
    reveal_strlit("scenekit-scene");
    reveal_strlit("font");
    reveal_strlit("pkcs12");
    reveal_strlit("x509-certificate");
    reveal_strlit("url");
    reveal_strlit("file-url");
    reveal_strlit("url-bookmark-data");
    reveal_strlit("property-list");
    reveal_strlit("xml-property-list");
    reveal_strlit("binary-property-list");
    reveal_strlit("log");
    reveal_strlit("bookmark");
    reveal_strlit("internet-location");
    reveal_strlit("internet-shortcut");
    assert(normalized(name_spec(SuperType::DefaultAppWebBrowser)) =~= "default-app-web-browser"@);
    let n = normalized(name_spec(SuperType::DefaultAppWebBrowser));
    assert(n != "text"@) by {
        assert("default-app-web-browser"@.len() != "text"@.len());
    }
    assert(n != "plain-text"@) by {
        assert("default-app-web-browser"@.len() != "plain-text"@.len());
    }
    assert(n != "csv"@) by {
        assert("default-app-web-browser"@.len() != "csv"@.len());
    }
    assert(n != "json"@) by {
        assert("default-app-web-browser"@.len() != "json"@.len());
    }
    assert(n != "xml"@) by {
        assert("default-app-web-browser"@.len() != "xml"@.len());
    }
    assert(n != "yaml"@) by {
        assert("default-app-web-browser"@.len() != "yaml"@.len());
    }
    assert(n != "html"@) by {
        assert("default-app-web-browser"@.len() != "html"@.len());
    }
    assert(n != "markdown"@) by {
        assert("default-app-web-browser"@.len() != "markdown"@.len());
    }
    assert(n != "rtf"@) by {
        assert("default-app-web-browser"@.len() != "rtf"@.len());
    }
    assert(n != "image"@) by {
        assert("default-app-web-browser"@.len() != "image"@.len());
    }
    assert(n != "raw-image"@) by {
        assert("default-app-web-browser"@.len() != "raw-image"@.len());
    }
    assert(n != "png"@) by {
        assert("default-app-web-browser"@.len() != "png"@.len());
    }
    assert(n != "jpeg"@) by {
        assert("default-app-web-browser"@.len() != "jpeg"@.len());
    }
    assert(n != "gif"@) by {
        assert("default-app-web-browser"@.len() != "gif"@.len());
    }
    assert(n != "tiff"@) by {
        assert("default-app-web-browser"@.len() != "tiff"@.len());
    }
    assert(n != "svg"@) by {
        assert("default-app-web-browser"@.len() != "svg"@.len());
    }
    assert(n != "webp"@) by {
        assert("default-app-web-browser"@.len() != "webp"@.len());
    }
    assert(n != "heic"@) by {
        assert("default-app-web-browser"@.len() != "heic"@.len());
    }
    assert(n != "heif"@) by {
        assert("default-app-web-browser"@.len() != "heif"@.len());
    }
    assert(n != "bmp"@) by {
        assert("default-app-web-browser"@.len() != "bmp"@.len());
    }
    assert(n != "audio"@) by {
        assert("default-app-web-browser"@.len() != "audio"@.len());
    }
    assert(n != "mp3"@) by {
        assert("default-app-web-browser"@.len() != "mp3"@.len());
    }
    assert(n != "wav"@) by {
        assert("default-app-web-browser"@.len() != "wav"@.len());
    }
    assert(n != "aiff"@) by {
        assert("default-app-web-browser"@.len() != "aiff"@.len());
    }
    assert(n != "midi"@) by {
        assert("default-app-web-browser"@.len() != "midi"@.len());
    }
    assert(n != "mp4-audio"@) by {
        assert("default-app-web-browser"@.len() != "mp4-audio"@.len());
    }
    assert(n != "apple-protected-mp4-audio"@) by {
        assert("default-app-web-browser"@.len() != "apple-protected-mp4-audio"@.len());
    }
    assert(n != "flac"@) by {
        assert("default-app-web-browser"@.len() != "flac"@.len());
    }
    assert(n != "ogg-audio"@) by {
        assert("default-app-web-browser"@.len() != "ogg-audio"@.len());
    }
    assert(n != "ac3-audio"@) by {
        assert("default-app-web-browser"@.len() != "ac3-audio"@.len());
    }
    assert(n != "aac-audio"@) by {
        assert("default-app-web-browser"@.len() != "aac-audio"@.len());
    }
    assert(n != "video"@) by {
        assert("default-app-web-browser"@.len() != "video"@.len());
    }
    assert(n != "mpeg2-transport-stream"@) by {
        assert("default-app-web-browser"@.len() != "mpeg2-transport-stream"@.len());
    }
    assert(n != "movie"@) by {
        assert("default-app-web-browser"@.len() != "movie"@.len());
    }
    assert(n != "quicktime-movie"@) by {
        assert("default-app-web-browser"@.len() != "quicktime-movie"@.len());
    }
    assert(n != "mp4-movie"@) by {
        assert("default-app-web-browser"@.len() != "mp4-movie"@.len());
    }
    assert(n != "apple-protected-mp4-video"@) by {
        assert("default-app-web-browser"@.len() != "apple-protected-mp4-video"@.len());
    }
    assert(n != "mpeg"@) by {
        assert("default-app-web-browser"@.len() != "mpeg"@.len());
    }
    assert(n != "mpeg2-video"@) by {
        assert("default-app-web-browser"@.len() != "mpeg2-video"@.len());
    }
    assert(n != "avi"@) by {
        assert("default-app-web-browser"@.len() != "avi"@.len());
    }
    assert(n != "dv-movie"@) by {
        assert("default-app-web-browser"@.len() != "dv-movie"@.len());
    }
    assert(n != "real-media"@) by {
        assert("default-app-web-browser"@.len() != "real-media"@.len());
    }
    assert(n != "real-audio"@) by {
        assert("default-app-web-browser"@.len() != "real-audio"@.len());
    }
    assert(n != "webm"@) by {
        assert("default-app-web-browser"@.len() != "webm"@.len());
    }
    assert(n != "matroska"@) by {
        assert("default-app-web-browser"@.len() != "matroska"@.len());
    }
    assert(n != "m3u-playlist"@) by {
        assert("default-app-web-browser"@.len() != "m3u-playlist"@.len());
    }
    assert(n != "archive"@) by {
        assert("default-app-web-browser"@.len() != "archive"@.len());
    }
    assert(n != "zip"@) by {
        assert("default-app-web-browser"@.len() != "zip"@.len());
    }
    assert(n != "gzip"@) by {
        assert("default-app-web-browser"@.len() != "gzip"@.len());
    }
    assert(n != "tar"@) by {
        assert("default-app-web-browser"@.len() != "tar"@.len());
    }
    assert(n != "bz2"@) by {
        assert("default-app-web-browser"@.len() != "bz2"@.len());
    }
    assert(n != "apple-archive"@) by {
        assert("default-app-web-browser"@.len() != "apple-archive"@.len());
    }
    assert(n != "sourcecode"@) by {
        assert("default-app-web-browser"@.len() != "sourcecode"@.len());
    }
    assert(n != "c-source"@) by {
        assert("default-app-web-browser"@.len() != "c-source"@.len());
    }
    assert(n != "c-header"@) by {
        assert("default-app-web-browser"@.len() != "c-header"@.len());
    }
    assert(n != "cpp-source"@) by {
        assert("default-app-web-browser"@.len() != "cpp-source"@.len());
    }
    assert(n != "cpp-header"@) by {
        assert("default-app-web-browser"@.len() != "cpp-header"@.len());
    }
    assert(n != "objc-source"@) by {
        assert("default-app-web-browser"@.len() != "objc-source"@.len());
    }
    assert(n != "objc-plus-plus-source"@) by {
        assert("default-app-web-browser"@.len() != "objc-plus-plus-source"@.len());
    }
    assert(n != "swift-source"@) by {
        assert("default-app-web-browser"@.len() != "swift-source"@.len());
    }
    assert(n != "shell"@) by {
        assert("default-app-web-browser"@.len() != "shell"@.len());
    }
    assert(n != "makefile"@) by {
        assert("default-app-web-browser"@.len() != "makefile"@.len());
    }
    assert(n != "javascript"@) by {
        assert("default-app-web-browser"@.len() != "javascript"@.len());
    }
    assert(n != "python-script"@) by {
        assert("default-app-web-browser"@.len() != "python-script"@.len());
    }
    assert(n != "ruby-script"@) by {
        assert("default-app-web-browser"@.len() != "ruby-script"@.len());
    }
    assert(n != "perl-script"@) by {
        assert("default-app-web-browser"@.len() != "perl-script"@.len());
    }
    assert(n != "php-script"@) by {
        assert("default-app-web-browser"@.len() != "php-script"@.len());
    }
    assert(n != "apple-script"@) by {
        assert("default-app-web-browser"@.len() != "apple-script"@.len());
    }
    assert(n != "assembly-source"@) by {
        assert("default-app-web-browser"@.len() != "assembly-source"@.len());
    }
    assert(n != "data"@) by {
        assert("default-app-web-browser"@.len() != "data"@.len());
    }
    assert(n != "directory"@) by {
        assert("default-app-web-browser"@.len() != "directory"@.len());
    }
    assert(n != "folder"@) by {
        assert("default-app-web-browser"@.len() != "folder"@.len());
    }
    assert(n != "symlink"@) by {
        assert("default-app-web-browser"@.len() != "symlink"@.len());
    }
    assert(n != "executable"@) by {
        assert("default-app-web-browser"@.len() != "executable"@.len());
    }
    assert(n != "unix-executable"@) by {
        assert("default-app-web-browser"@.len() != "unix-executable"@.len());
    }
    assert(n != "app-bundle"@) by {
        assert("default-app-web-browser"@.len() != "app-bundle"@.len());
    }
    assert(n != "framework"@) by {
        assert("default-app-web-browser"@.len() != "framework"@.len());
    }
    assert(n != "disk-image"@) by {
        assert("default-app-web-browser"@.len() != "disk-image"@.len());
    }
    assert(n != "volume"@) by {
        assert("default-app-web-browser"@.len() != "volume"@.len());
    }
    assert(n != "mount-point"@) by {
        assert("default-app-web-browser"@.len() != "mount-point"@.len());
    }
    assert(n != "alias-file"@) by {
        assert("default-app-web-browser"@.len() != "alias-file"@.len());
    }
    assert(n != "3d-content"@) by {
        assert("default-app-web-browser"@.len() != "3d-content"@.len());
    }
    assert(n != "usd"@) by {
        assert("default-app-web-browser"@.len() != "usd"@.len());
    }
    assert(n != "usdz"@) by {
        assert("default-app-web-browser"@.len() != "usdz"@.len());
    }
    assert(n != "reality-file"@) by {
        assert("default-app-web-browser"@.len() != "reality-file"@.len());
    }
    assert(n != "scenekit-scene"@) by {
        assert("default-app-web-browser"@.len() != "scenekit-scene"@.len());
    }
    assert(n != "font"@) by {
        assert("default-app-web-browser"@.len() != "font"@.len());
    }
    assert(n != "pkcs12"@) by {
        assert("default-app-web-browser"@.len() != "pkcs12"@.len());
    }
    assert(n != "x509-certificate"@) by {
        assert("default-app-web-browser"@.len() != "x509-certificate"@.len());
    }
    assert(n != "url"@) by {
        assert("default-app-web-browser"@.len() != "url"@.len());
    }
    assert(n != "file-url"@) by {
        assert("default-app-web-browser"@.len() != "file-url"@.len());
    }
    assert(n != "url-bookmark-data"@) by {
        assert("default-app-web-browser"@.len() != "url-bookmark-data"@.len());
    }
    assert(n != "property-list"@) by {
        assert("default-app-web-browser"@.len() != "property-list"@.len());
    }
    assert(n != "xml-property-list"@) by {
        assert("default-app-web-browser"@.len() != "xml-property-list"@.len());
    }
    assert(n != "binary-property-list"@) by {
        assert("default-app-web-browser"@.len() != "binary-property-list"@.len());
    }
    assert(n != "log"@) by {
        assert("default-app-web-browser"@.len() != "log"@.len());
    }
    assert(n != "bookmark"@) by {
        assert("default-app-web-browser"@.len() != "bookmark"@.len());
    }
    assert(n != "internet-location"@) by {
        assert("default-app-web-browser"@.len() != "internet-location"@.len());
    }
    assert(n != "internet-shortcut"@) by {
        assert("default-app-web-browser"@.len() != "internet-shortcut"@.len());
    }
    assert(parse_spec(n) == Some(SuperType::DefaultAppWebBrowser));
}

proof fn lemma_display_parse_defaultappmailclient()
    ensures
        parse_spec(normalized(name_spec(SuperType::DefaultAppMailClient))) == Some(SuperType::DefaultAppMailClient),
{
    reveal_strlit("default-app-mail-client");
    reveal_strlit("text");
    reveal_strlit("plain-text");
    reveal_strlit("csv");
    reveal_strlit("json");
    reveal_strlit("xml");
    reveal_strlit("yaml");
    reveal_strlit("html");
    reveal_strlit("markdown");
    reveal_strlit("rtf");
    reveal_strlit("image");
    reveal_strlit("raw-image");
    reveal_strlit("png");
    reveal_strlit("jpeg");
    reveal_strlit("gif");
    reveal_strlit("tiff");
    reveal_strlit("svg");
    reveal_strlit("webp");
    reveal_strlit("heic");
    reveal_strlit("heif");
    reveal_strlit("bmp");
    reveal_strlit("audio");
    reveal_strlit("mp3");
    reveal_strlit("wav");
    reveal_strlit("aiff");
    reveal_strlit("midi");
    reveal_strlit("mp4-audio");
    reveal_strlit("apple-protected-mp4-audio");
    reveal_strlit("flac");
    reveal_strlit("ogg-audio");
    reveal_strlit("ac3-audio");
    reveal_strlit("aac-audio");
    reveal_strlit("video");
    reveal_strlit("mpeg2-transport-stream");
    reveal_strlit("movie");
    reveal_strlit("quicktime-movie");
    reveal_strlit("mp4-movie");
    reveal_strlit("apple-protected-mp4-video");
    reveal_strlit("mpeg");
    reveal_strlit("mpeg2-video");
    reveal_strlit("avi");
    reveal_strlit("dv-movie");
    reveal_strlit("real-media");
    reveal_strlit("real-audio");
    reveal_strlit("webm");
    reveal_strlit("matroska");
    reveal_strlit("m3u-playlist");
    reveal_strlit("archive");
    reveal_strlit("zip");
    reveal_strlit("gzip");
    reveal_strlit("tar");
    reveal_strlit("bz2");
    reveal_strlit("apple-archive");
    reveal_strlit("sourcecode");
    reveal_strlit("c-source");
    reveal_strlit("c-header");
    reveal_strlit("cpp-source");
    reveal_strlit("cpp-header");
    reveal_strlit("objc-source");
    reveal_strlit("objc-plus-plus-source");
    reveal_strlit("swift-source");
    reveal_strlit("shell");
    reveal_strlit("makefile");
    reveal_strlit("javascript");
    reveal_strlit("python-script");
    reveal_strlit("ruby-script");
    reveal_strlit("perl-script");
    reveal_strlit("php-script");
    reveal_strlit("apple-script");
    reveal_strlit("assembly-source");
    reveal_strlit("data");
    reveal_strlit("directory");
    reveal_strlit("folder");
    reveal_strlit("symlink");
    reveal_strlit("executable");
    reveal_strlit("unix-executable");
    reveal_strlit("app-bundle");
    reveal_strlit("framework");
    reveal_strlit("disk-image");
    reveal_strlit("volume");
    reveal_strlit("mount-point");
    reveal_strlit("alias-file");
    reveal_strlit("3d-content");
    reveal_strlit("usd");
    reveal_strlit("usdz");
    reveal_strlit("reality-file");
    reveal_strlit("scenekit-scene");
    reveal_strlit("font");
    reveal_strlit("pkcs12");
    reveal_strlit("x509-certificate");
    reveal_strlit("url");
    reveal_strlit("file-url");
    reveal_strlit("url-bookmark-data");
    reveal_strlit("property-list");
    reveal_strlit("xml-property-list");
    reveal_strlit("binary-property-list");
    reveal_strlit("log");
    reveal_strlit("bookmark");
    reveal_strlit("internet-location");
    reveal_strlit("internet-shortcut");
    reveal_strlit("default-app-web-browser");
    assert(normalized(name_spec(SuperType::DefaultAppMailClient)) =~= "default-app-mail-client"@);
    let n = normalized(name_spec(SuperType::DefaultAppMailClient));
    assert(n != "text"@) by {
        assert("default-app-mail-client"@.len() != "text"@.len());
    }
    assert(n != "plain-text"@) by {
        assert("default-app-mail-client"@.len() != "plain-text"@.len());
    }
    assert(n != "csv"@) by {
        assert("default-app-mail-client"@.len() != "csv"@.len());
    }
    assert(n != "json"@) by {
        assert("default-app-mail-client"@.len() != "json"@.len());
    }
    assert(n != "xml"@) by {
        assert("default-app-mail-client"@.len() != "xml"@.len());
    }
    assert(n != "yaml"@) by {
        assert("default-app-mail-client"@.len() != "yaml"@.len());
    }
    assert(n != "html"@) by {
        assert("default-app-mail-client"@.len() != "html"@.len());
    }
    assert(n != "markdown"@) by {
        assert("default-app-mail-client"@.len() != "markdown"@.len());
    }
    assert(n != "rtf"@) by {
        assert("default-app-mail-client"@.len() != "rtf"@.len());
    }
    assert(n != "image"@) by {
        assert("default-app-mail-client"@.len() != "image"@.len());
    }
    assert(n != "raw-image"@) by {
        assert("default-app-mail-client"@.len() != "raw-image"@.len());
    }
    assert(n != "png"@) by {
        assert("default-app-mail-client"@.len() != "png"@.len());
    }
    assert(n != "jpeg"@) by {
        assert("default-app-mail-client"@.len() != "jpeg"@.len());
    }
    assert(n != "gif"@) by {
        assert("default-app-mail-client"@.len() != "gif"@.len());
    }
    assert(n != "tiff"@) by {
        assert("default-app-mail-client"@.len() != "tiff"@.len());
    }
    assert(n != "svg"@) by {
        assert("default-app-mail-client"@.len() != "svg"@.len());
    }
    assert(n != "webp"@) by {
        assert("default-app-mail-client"@.len() != "webp"@.len());
    }
    assert(n != "heic"@) by {
        assert("default-app-mail-client"@.len() != "heic"@.len());
    }
    assert(n != "heif"@) by {
        assert("default-app-mail-client"@.len() != "heif"@.len());
    }
    assert(n != "bmp"@) by {
        assert("default-app-mail-client"@.len() != "bmp"@.len());
    }
    assert(n != "audio"@) by {
        assert("default-app-mail-client"@.len() != "audio"@.len());
    }
    assert(n != "mp3"@) by {
        assert("default-app-mail-client"@.len() != "mp3"@.len());
    }
    assert(n != "wav"@) by {
        assert("default-app-mail-client"@.len() != "wav"@.len());
    }
    assert(n != "aiff"@) by {
        assert("default-app-mail-client"@.len() != "aiff"@.len());
    }
    assert(n != "midi"@) by {
        assert("default-app-mail-client"@.len() != "midi"@.len());
    }
    assert(n != "mp4-audio"@) by {
        assert("default-app-mail-client"@.len() != "mp4-audio"@.len());
    }
    assert(n != "apple-protected-mp4-audio"@) by {
        assert("default-app-mail-client"@.len() != "apple-protected-mp4-audio"@.len());
    }
    assert(n != "flac"@) by {
        assert("default-app-mail-client"@.len() != "flac"@.len());
    }
    assert(n != "ogg-audio"@) by {
        assert("default-app-mail-client"@.len() != "ogg-audio"@.len());
    }
    assert(n != "ac3-audio"@) by {
        assert("default-app-mail-client"@.len() != "ac3-audio"@.len());
    }
    assert(n != "aac-audio"@) by {
        assert("default-app-mail-client"@.len() != "aac-audio"@.len());
    }
    assert(n != "video"@) by {
        assert("default-app-mail-client"@.len() != "video"@.len());
    }
    assert(n != "mpeg2-transport-stream"@) by {
        assert("default-app-mail-client"@.len() != "mpeg2-transport-stream"@.len());
    }
    assert(n != "movie"@) by {
        assert("default-app-mail-client"@.len() != "movie"@.len());
    }
    assert(n != "quicktime-movie"@) by {
        assert("default-app-mail-client"@.len() != "quicktime-movie"@.len());
    }
    assert(n != "mp4-movie"@) by {
        assert("default-app-mail-client"@.len() != "mp4-movie"@.len());
    }
    assert(n != "apple-protected-mp4-video"@) by {
        assert("default-app-mail-client"@.len() != "apple-protected-mp4-video"@.len());
    }
    assert(n != "mpeg"@) by {
        assert("default-app-mail-client"@.len() != "mpeg"@.len());
    }
    assert(n != "mpeg2-video"@) by {
        assert("default-app-mail-client"@.len() != "mpeg2-video"@.len());
    }
    assert(n != "avi"@) by {
        assert("default-app-mail-client"@.len() != "avi"@.len());
    }
    assert(n != "dv-movie"@) by {
        assert("default-app-mail-client"@.len() != "dv-movie"@.len());
    }
    assert(n != "real-media"@) by {
        assert("default-app-mail-client"@.len() != "real-media"@.len());
    }
    assert(n != "real-audio"@) by {
        assert("default-app-mail-client"@.len() != "real-audio"@.len());
    }
    assert(n != "webm"@) by {
        assert("default-app-mail-client"@.len() != "webm"@.len());
    }
    assert(n != "matroska"@) by {
        assert("default-app-mail-client"@.len() != "matroska"@.len());
    }
    assert(n != "m3u-playlist"@) by {
        assert("default-app-mail-client"@.len() != "m3u-playlist"@.len());
    }
    assert(n != "archive"@) by {
        assert("default-app-mail-client"@.len() != "archive"@.len());
    }
    assert(n != "zip"@) by {
        assert("default-app-mail-client"@.len() != "zip"@.len());
    }
    assert(n != "gzip"@) by {
        assert("default-app-mail-client"@.len() != "gzip"@.len());
    }
    assert(n != "tar"@) by {
        assert("default-app-mail-client"@.len() != "tar"@.len());
    }
    assert(n != "bz2"@) by {
        assert("default-app-mail-client"@.len() != "bz2"@.len());
    }
    assert(n != "apple-archive"@) by {
        assert("default-app-mail-client"@.len() != "apple-archive"@.len());
    }
    assert(n != "sourcecode"@) by {
        assert("default-app-mail-client"@.len() != "sourcecode"@.len());
    }
    assert(n != "c-source"@) by {
        assert("default-app-mail-client"@.len() != "c-source"@.len());
    }
    assert(n != "c-header"@) by {
        assert("default-app-mail-client"@.len() != "c-header"@.len());
    }
    assert(n != "cpp-source"@) by {
        assert("default-app-mail-client"@.len() != "cpp-source"@.len());
    }
    assert(n != "cpp-header"@) by {
        assert("default-app-mail-client"@.len() != "cpp-header"@.len());
    }
    assert(n != "objc-source"@) by {
        assert("default-app-mail-client"@.len() != "objc-source"@.len());
    }
    assert(n != "objc-plus-plus-source"@) by {
        assert("default-app-mail-client"@.len() != "objc-plus-plus-source"@.len());
    }
    assert(n != "swift-source"@) by {
        assert("default-app-mail-client"@.len() != "swift-source"@.len());
    }
    assert(n != "shell"@) by {
        assert("default-app-mail-client"@.len() != "shell"@.len());
    }
    assert(n != "makefile"@) by {
        assert("default-app-mail-client"@.len() != "makefile"@.len());
    }
    assert(n != "javascript"@) by {
        assert("default-app-mail-client"@.len() != "javascript"@.len());
    }
    assert(n != "python-script"@) by {
        assert("default-app-mail-client"@.len() != "python-script"@.len());
    }
    assert(n != "ruby-script"@) by {
        assert("default-app-mail-client"@.len() != "ruby-script"@.len());
    }
    assert(n != "perl-script"@) by {
        assert("default-app-mail-client"@.len() != "perl-script"@.len());
    }
    assert(n != "php-script"@) by {
        assert("default-app-mail-client"@.len() != "php-script"@.len());
    }
    assert(n != "apple-script"@) by {
        assert("default-app-mail-client"@.len() != "apple-script"@.len());
    }
    assert(n != "assembly-source"@) by {
        assert("default-app-mail-client"@.len() != "assembly-source"@.len());
    }
    assert(n != "data"@) by {
        assert("default-app-mail-client"@.len() != "data"@.len());
    }
    assert(n != "directory"@) by {
        assert("default-app-mail-client"@.len() != "directory"@.len());
    }
    assert(n != "folder"@) by {
        assert("default-app-mail-client"@.len() != "folder"@.len());
    }
    assert(n != "symlink"@) by {
        assert("default-app-mail-client"@.len() != "symlink"@.len());
    }
    assert(n != "executable"@) by {
        assert("default-app-mail-client"@.len() != "executable"@.len());
    }
    assert(n != "unix-executable"@) by {
        assert("default-app-mail-client"@.len() != "unix-executable"@.len());
    }
    assert(n != "app-bundle"@) by {
        assert("default-app-mail-client"@.len() != "app-bundle"@.len());
    }
    assert(n != "framework"@) by {
        assert("default-app-mail-client"@.len() != "framework"@.len());
    }
    assert(n != "disk-image"@) by {
        assert("default-app-mail-client"@.len() != "disk-image"@.len());
    }
    assert(n != "volume"@) by {
        assert("default-app-mail-client"@.len() != "volume"@.len());
    }
    assert(n != "mount-point"@) by {
        assert("default-app-mail-client"@.len() != "mount-point"@.len());
    }
    assert(n != "alias-file"@) by {
        assert("default-app-mail-client"@.len() != "alias-file"@.len());
    }
    assert(n != "3d-content"@) by {
        assert("default-app-mail-client"@.len() != "3d-content"@.len());
    }
    assert(n != "usd"@) by {
        assert("default-app-mail-client"@.len() != "usd"@.len());
    }
    assert(n != "usdz"@) by {
        assert("default-app-mail-client"@.len() != "usdz"@.len());
    }
    assert(n != "reality-file"@) by {
        assert("default-app-mail-client"@.len() != "reality-file"@.len());
    }
    assert(n != "scenekit-scene"@) by {
        assert("default-app-mail-client"@.len() != "scenekit-scene"@.len());
    }
    assert(n != "font"@) by {
        assert("default-app-mail-client"@.len() != "font"@.len());
    }
    assert(n != "pkcs12"@) by {
        assert("default-app-mail-client"@.len() != "pkcs12"@.len());
    }
    assert(n != "x509-certificate"@) by {
        assert("default-app-mail-client"@.len() != "x509-certificate"@.len());
    }
    assert(n != "url"@) by {
        assert("default-app-mail-client"@.len() != "url"@.len());
    }
    assert(n != "file-url"@) by {
        assert("default-app-mail-client"@.len() != "file-url"@.len());
    }
    assert(n != "url-bookmark-data"@) by {
        assert("default-app-mail-client"@.len() != "url-bookmark-data"@.len());
    }
    assert(n != "property-list"@) by {
        assert("default-app-mail-client"@.len() != "property-list"@.len());
    }
    assert(n != "xml-property-list"@) by {
        assert("default-app-mail-client"@.len() != "xml-property-list"@.len());
    }
    assert(n != "binary-property-list"@) by {
        assert("default-app-mail-client"@.len() != "binary-property-list"@.len());
    }
    assert(n != "log"@) by {
        assert("default-app-mail-client"@.len() != "log"@.len());
    }
    assert(n != "bookmark"@) by {
        assert("default-app-mail-client"@.len() != "bookmark"@.len());
    }
    assert(n != "internet-location"@) by {
        assert("default-app-mail-client"@.len() != "internet-location"@.len());
    }
    assert(n != "internet-shortcut"@) by {
        assert("default-app-mail-client"@.len() != "internet-shortcut"@.len());
    }
    assert(n != "default-app-web-browser"@) by {
        assert("default-app-mail-client"@[12] != "default-app-web-browser"@[12]);
    }
    assert(parse_spec(n) == Some(SuperType::DefaultAppMailClient));
}

proof fn lemma_display_parse_m4vvideo()
    ensures
        parse_spec(normalized(name_spec(SuperType::M4vVideo))) == Some(SuperType::M4vVideo),
{
    reveal_strlit("m4v-video");
    reveal_strlit("text");
    reveal_strlit("plain-text");
    reveal_strlit("csv");
    reveal_strlit("json");
    reveal_strlit("xml");
    reveal_strlit("yaml");
    reveal_strlit("html");
    reveal_strlit("markdown");
    reveal_strlit("rtf");
    reveal_strlit("image");
    reveal_strlit("raw-image");
    reveal_strlit("png");
    reveal_strlit("jpeg");
    reveal_strlit("gif");
    reveal_strlit("tiff");
    reveal_strlit("svg");
    reveal_strlit("webp");
    reveal_strlit("heic");
    reveal_strlit("heif");
    reveal_strlit("bmp");
    reveal_strlit("audio");
    reveal_strlit("mp3");
    reveal_strlit("wav");
    reveal_strlit("aiff");
    reveal_strlit("midi");
    reveal_strlit("mp4-audio");
    reveal_strlit("apple-protected-mp4-audio");
    reveal_strlit("flac");
    reveal_strlit("ogg-audio");
    reveal_strlit("ac3-audio");
    reveal_strlit("aac-audio");
    reveal_strlit("video");
    reveal_strlit("mpeg2-transport-stream");
    reveal_strlit("movie");
    reveal_strlit("quicktime-movie");
    reveal_strlit("mp4-movie");
    reveal_strlit("apple-protected-mp4-video");
    reveal_strlit("mpeg");
    reveal_strlit("mpeg2-video");
    reveal_strlit("avi");
    reveal_strlit("dv-movie");
    reveal_strlit("real-media");
    reveal_strlit("real-audio");
    reveal_strlit("webm");
    reveal_strlit("matroska");
    reveal_strlit("m3u-playlist");
    reveal_strlit("archive");
    reveal_strlit("zip");
    reveal_strlit("gzip");
    reveal_strlit("tar");
    reveal_strlit("bz2");
    reveal_strlit("apple-archive");
    reveal_strlit("sourcecode");
    reveal_strlit("c-source");
    reveal_strlit("c-header");
    reveal_strlit("cpp-source");
    reveal_strlit("cpp-header");
    reveal_strlit("objc-source");
    reveal_strlit("objc-plus-plus-source");
    reveal_strlit("swift-source");
    reveal_strlit("shell");
    reveal_strlit("makefile");
    reveal_strlit("javascript");
    reveal_strlit("python-script");
    reveal_strlit("ruby-script");
    reveal_strlit("perl-script");
    reveal_strlit("php-script");
    reveal_strlit("apple-script");
    reveal_strlit("assembly-source");
    reveal_strlit("data");
    reveal_strlit("directory");
    reveal_strlit("folder");
    reveal_strlit("symlink");
    reveal_strlit("executable");
    reveal_strlit("unix-executable");
    reveal_strlit("app-bundle");
    reveal_strlit("framework");
    reveal_strlit("disk-image");
    reveal_strlit("volume");
    reveal_strlit("mount-point");
    reveal_strlit("alias-file");
    reveal_strlit("3d-content");
    reveal_strlit("usd");
    reveal_strlit("usdz");
    reveal_strlit("reality-file");
    reveal_strlit("scenekit-scene");
    reveal_strlit("font");
    reveal_strlit("pkcs12");
    reveal_strlit("x509-certificate");
    reveal_strlit("url");
    reveal_strlit("file-url");
    reveal_strlit("url-bookmark-data");
    reveal_strlit("property-list");
    reveal_strlit("xml-property-list");
    reveal_strlit("binary-property-list");
    reveal_strlit("log");
    reveal_strlit("bookmark");
    reveal_strlit("internet-location");
    reveal_strlit("internet-shortcut");
    reveal_strlit("default-app-web-browser");
    reveal_strlit("default-app-mail-client");
    assert(normalized(name_spec(SuperType::M4vVideo)) =~= "m4v-video"@);
    let n = normalized(name_spec(SuperType::M4vVideo));
    assert(n != "text"@) by {
        assert("m4v-video"@.len() != "text"@.len());
    }
    assert(n != "plain-text"@) by {
        assert("m4v-video"@.len() != "plain-text"@.len());
    }
    assert(n != "csv"@) by {
        assert("m4v-video"@.len() != "csv"@.len());
    }
    assert(n != "json"@) by {
        assert("m4v-video"@.len() != "json"@.len());
    }
    assert(n != "xml"@) by {
        assert("m4v-video"@.len() != "xml"@.len());
    }
    assert(n != "yaml"@) by {
        assert("m4v-video"@.len() != "yaml"@.len());
    }
    assert(n != "html"@) by {
        assert("m4v-video"@.len() != "html"@.len());
    }
    assert(n != "markdown"@) by {
        assert("m4v-video"@.len() != "markdown"@.len());
    }
    assert(n != "rtf"@) by {
        assert("m4v-video"@.len() != "rtf"@.len());
    }
    assert(n != "image"@) by {
        assert("m4v-video"@.len() != "image"@.len());
    }
    assert(n != "raw-image"@) by {
        assert("m4v-video"@[0] != "raw-image"@[0]);
    }
    assert(n != "png"@) by {
        assert("m4v-video"@.len() != "png"@.len());
    }
    assert(n != "jpeg"@) by {
        assert("m4v-video"@.len() != "jpeg"@.len());
    }
    assert(n != "gif"@) by {
        assert("m4v-video"@.len() != "gif"@.len());
    }
    assert(n != "tiff"@) by {
        assert("m4v-video"@.len() != "tiff"@.len());
    }
    assert(n != "svg"@) by {
        assert("m4v-video"@.len() != "svg"@.len());
    }
    assert(n != "webp"@) by {
        assert("m4v-video"@.len() != "webp"@.len());
    }
    assert(n != "heic"@) by {
        assert("m4v-video"@.len() != "heic"@.len());
    }
    assert(n != "heif"@) by {
        assert("m4v-video"@.len() != "heif"@.len());
    }
    assert(n != "bmp"@) by {
        assert("m4v-video"@.len() != "bmp"@.len());
    }
    assert(n != "audio"@) by {
        assert("m4v-video"@.len() != "audio"@.len());
    }
    assert(n != "mp3"@) by {
        assert("m4v-video"@.len() != "mp3"@.len());
    }
    assert(n != "wav"@) by {
        assert("m4v-video"@.len() != "wav"@.len());
    }
    assert(n != "aiff"@) by {
        assert("m4v-video"@.len() != "aiff"@.len());
    }
    assert(n != "midi"@) by {
        assert("m4v-video"@.len() != "midi"@.len());
    }
    assert(n != "mp4-audio"@) by {
        assert("m4v-video"@[1] != "mp4-audio"@[1]);
    }
    assert(n != "apple-protected-mp4-audio"@) by {
        assert("m4v-video"@.len() != "apple-protected-mp4-audio"@.len());
    }
    assert(n != "flac"@) by {
        assert("m4v-video"@.len() != "flac"@.len());
    }
    assert(n != "ogg-audio"@) by {
        assert("m4v-video"@[0] != "ogg-audio"@[0]);
    }
    assert(n != "ac3-audio"@) by {
        assert("m4v-video"@[0] != "ac3-audio"@[0]);
    }
    assert(n != "aac-audio"@) by {
        assert("m4v-video"@[0] != "aac-audio"@[0]);
    }
    assert(n != "video"@) by {
        assert("m4v-video"@.len() != "video"@.len());
    }
    assert(n != "mpeg2-transport-stream"@) by {
        assert("m4v-video"@.len() != "mpeg2-transport-stream"@.len());
    }
    assert(n != "movie"@) by {
        assert("m4v-video"@.len() != "movie"@.len());
    }
    assert(n != "quicktime-movie"@) by {
        assert("m4v-video"@.len() != "quicktime-movie"@.len());
    }
    assert(n != "mp4-movie"@) by {
        assert("m4v-video"@[1] != "mp4-movie"@[1]);
    }
    assert(n != "apple-protected-mp4-video"@) by {
        assert("m4v-video"@.len() != "apple-protected-mp4-video"@.len());
    }
    assert(n != "mpeg"@) by {
        assert("m4v-video"@.len() != "mpeg"@.len());
    }
    assert(n != "mpeg2-video"@) by {
        assert("m4v-video"@.len() != "mpeg2-video"@.len());
    }
    assert(n != "avi"@) by {
        assert("m4v-video"@.len() != "avi"@.len());
    }
    assert(n != "dv-movie"@) by {
        assert("m4v-video"@.len() != "dv-movie"@.len());
    }
    assert(n != "real-media"@) by {
        assert("m4v-video"@.len() != "real-media"@.len());
    }
    assert(n != "real-audio"@) by {
        assert("m4v-video"@.len() != "real-audio"@.len());
    }
    assert(n != "webm"@) by {
        assert("m4v-video"@.len() != "webm"@.len());
    }
    assert(n != "matroska"@) by {
        assert("m4v-video"@.len() != "matroska"@.len());
    }
    assert(n != "m3u-playlist"@) by {
        assert("m4v-video"@.len() != "m3u-playlist"@.len());
    }
    assert(n != "archive"@) by {
        assert("m4v-video"@.len() != "archive"@.len());
    }
    assert(n != "zip"@) by {
        assert("m4v-video"@.len() != "zip"@.len());
    }
    assert(n != "gzip"@) by {
        assert("m4v-video"@.len() != "gzip"@.len());
    }
    assert(n != "tar"@) by {
        assert("m4v-video"@.len() != "tar"@.len());
    }
    assert(n != "bz2"@) by {
        assert("m4v-video"@.len() != "bz2"@.len());
    }
    assert(n != "apple-archive"@) by {
        assert("m4v-video"@.len() != "apple-archive"@.len());
    }
    assert(n != "sourcecode"@) by {
        assert("m4v-video"@.len() != "sourcecode"@.len());
    }
    assert(n != "c-source"@) by {
        assert("m4v-video"@.len() != "c-source"@.len());
    }
    assert(n != "c-header"@) by {
        assert("m4v-video"@.len() != "c-header"@.len());
    }
    assert(n != "cpp-source"@) by {
        assert("m4v-video"@.len() != "cpp-source"@.len());
    }
    assert(n != "cpp-header"@) by {
        assert("m4v-video"@.len() != "cpp-header"@.len());
    }
    assert(n != "objc-source"@) by {
        assert("m4v-video"@.len() != "objc-source"@.len());
    }
    assert(n != "objc-plus-plus-source"@) by {
        assert("m4v-video"@.len() != "objc-plus-plus-source"@.len());
    }
    assert(n != "swift-source"@) by {
        assert("m4v-video"@.len() != "swift-source"@.len());
    }
    assert(n != "shell"@) by {
        assert("m4v-video"@.len() != "shell"@.len());
    }
    assert(n != "makefile"@) by {
        assert("m4v-video"@.len() != "makefile"@.len());
    }
    assert(n != "javascript"@) by {
        assert("m4v-video"@.len() != "javascript"@.len());
    }
    assert(n != "python-script"@) by {
        assert("m4v-video"@.len() != "python-script"@.len());
    }
    assert(n != "ruby-script"@) by {
        assert("m4v-video"@.len() != "ruby-script"@.len());
    }
    assert(n != "perl-script"@) by {
        assert("m4v-video"@.len() != "perl-script"@.len());
    }
    assert(n != "php-script"@) by {
        assert("m4v-video"@.len() != "php-script"@.len());
    }
    assert(n != "apple-script"@) by {
        assert("m4v-video"@.len() != "apple-script"@.len());
    }
    assert(n != "assembly-source"@) by {
        assert("m4v-video"@.len() != "assembly-source"@.len());
    }
    assert(n != "data"@) by {
        assert("m4v-video"@.len() != "data"@.len());
    }
    assert(n != "directory"@) by {
        assert("m4v-video"@[0] != "directory"@[0]);
    }
    assert(n != "folder"@) by {
        assert("m4v-video"@.len() != "folder"@.len());
    }
    assert(n != "symlink"@) by {
        assert("m4v-video"@.len() != "symlink"@.len());
    }
    assert(n != "executable"@) by {
        assert("m4v-video"@.len() != "executable"@.len());
    }
    assert(n != "unix-executable"@) by {
        assert("m4v-video"@.len() != "unix-executable"@.len());
    }
    assert(n != "app-bundle"@) by {
        assert("m4v-video"@.len() != "app-bundle"@.len());
    }
    assert(n != "framework"@) by {
        assert("m4v-video"@[0] != "framework"@[0]);
    }
    assert(n != "disk-image"@) by {
        assert("m4v-video"@.len() != "disk-image"@.len());
    }
    assert(n != "volume"@) by {
        assert("m4v-video"@.len() != "volume"@.len());
    }
    assert(n != "mount-point"@) by {
        assert("m4v-video"@.len() != "mount-point"@.len());
    }
    assert(n != "alias-file"@) by {
        assert("m4v-video"@.len() != "alias-file"@.len());
    }
    assert(n != "3d-content"@) by {
        assert("m4v-video"@.len() != "3d-content"@.len());
    }
    assert(n != "usd"@) by {
        assert("m4v-video"@.len() != "usd"@.len());
    }
    assert(n != "usdz"@) by {
        assert("m4v-video"@.len() != "usdz"@.len());
    }
    assert(n != "reality-file"@) by {
        assert("m4v-video"@.len() != "reality-file"@.len());
    }
    assert(n != "scenekit-scene"@) by {
        assert("m4v-video"@.len() != "scenekit-scene"@.len());
    }
    assert(n != "font"@) by {
        assert("m4v-video"@.len() != "font"@.len());
    }
    assert(n != "pkcs12"@) by {
        assert("m4v-video"@.len() != "pkcs12"@.len());
    }
    assert(n != "x509-certificate"@) by {
        assert("m4v-video"@.len() != "x509-certificate"@.len());
    }
    assert(n != "url"@) by {
        assert("m4v-video"@.len() != "url"@.len());
    }
    assert(n != "file-url"@) by {
        assert("m4v-video"@.len() != "file-url"@.len());
    }
    assert(n != "url-bookmark-data"@) by {
        assert("m4v-video"@.len() != "url-bookmark-data"@.len());
    }
    assert(n != "property-list"@) by {
        assert("m4v-video"@.len() != "property-list"@.len());
    }
    assert(n != "xml-property-list"@) by {
        assert("m4v-video"@.len() != "xml-property-list"@.len());
    }
    assert(n != "binary-property-list"@) by {
        assert("m4v-video"@.len() != "binary-property-list"@.len());
    }
    assert(n != "log"@) by {
        assert("m4v-video"@.len() != "log"@.len());
    }
    assert(n != "bookmark"@) by {
        assert("m4v-video"@.len() != "bookmark"@.len());
    }
    assert(n != "internet-location"@) by {
        assert("m4v-video"@.len() != "internet-location"@.len());
    }
    assert(n != "internet-shortcut"@) by {
        assert("m4v-video"@.len() != "internet-shortcut"@.len());
    }
    assert(n != "default-app-web-browser"@) by {
        assert("m4v-video"@.len() != "default-app-web-browser"@.len());
    }
    assert(n != "default-app-mail-client"@) by {
        assert("m4v-video"@.len() != "default-app-mail-client"@.len());
    }
    assert(parse_spec(n) == Some(SuperType::M4vVideo));
}

proof fn lemma_display_parse_m4aaudio()
    ensures
        parse_spec(normalized(name_spec(SuperType::M4aAudio))) == Some(SuperType::M4aAudio),
{
    reveal_strlit("m4a-audio");
    reveal_strlit("text");
    reveal_strlit("plain-text");
    reveal_strlit("csv");
    reveal_strlit("json");
    reveal_strlit("xml");
    reveal_strlit("yaml");
    reveal_strlit("html");
    reveal_strlit("markdown");
    reveal_strlit("rtf");
    reveal_strlit("image");
    reveal_strlit("raw-image");
    reveal_strlit("png");
    reveal_strlit("jpeg");
    reveal_strlit("gif");
    reveal_strlit("tiff");
    reveal_strlit("svg");
    reveal_strlit("webp");
    reveal_strlit("heic");
    reveal_strlit("heif");
    reveal_strlit("bmp");
    reveal_strlit("audio");
    reveal_strlit("mp3");
    reveal_strlit("wav");
    reveal_strlit("aiff");
    reveal_strlit("midi");
    reveal_strlit("mp4-audio");
    reveal_strlit("apple-protected-mp4-audio");
    reveal_strlit("flac");
    reveal_strlit("ogg-audio");
    reveal_strlit("ac3-audio");
    reveal_strlit("aac-audio");
    reveal_strlit("video");
    reveal_strlit("mpeg2-transport-stream");
    reveal_strlit("movie");
    reveal_strlit("quicktime-movie");
    reveal_strlit("mp4-movie");
    reveal_strlit("apple-protected-mp4-video");
    reveal_strlit("mpeg");
    reveal_strlit("mpeg2-video");
    reveal_strlit("avi");
    reveal_strlit("dv-movie");
    reveal_strlit("real-media");
    reveal_strlit("real-audio");
    reveal_strlit("webm");
    reveal_strlit("matroska");
    reveal_strlit("m3u-playlist");
    reveal_strlit("archive");
    reveal_strlit("zip");
    reveal_strlit("gzip");
    reveal_strlit("tar");
    reveal_strlit("bz2");
    reveal_strlit("apple-archive");
    reveal_strlit("sourcecode");
    reveal_strlit("c-source");
    reveal_strlit("c-header");
    reveal_strlit("cpp-source");
    reveal_strlit("cpp-header");
    reveal_strlit("objc-source");
    reveal_strlit("objc-plus-plus-source");
    reveal_strlit("swift-source");
    reveal_strlit("shell");
    reveal_strlit("makefile");
    reveal_strlit("javascript");
    reveal_strlit("python-script");
    reveal_strlit("ruby-script");
    reveal_strlit("perl-script");
    reveal_strlit("php-script");
    reveal_strlit("apple-script");
    reveal_strlit("assembly-source");
    reveal_strlit("data");
    reveal_strlit("directory");
    reveal_strlit("folder");
    reveal_strlit("symlink");
    reveal_strlit("executable");
    reveal_strlit("unix-executable");
    reveal_strlit("app-bundle");
    reveal_strlit("framework");
    reveal_strlit("disk-image");
    reveal_strlit("volume");
    reveal_strlit("mount-point");
    reveal_strlit("alias-file");
    reveal_strlit("3d-content");
    reveal_strlit("usd");
    reveal_strlit("usdz");
    reveal_strlit("reality-file");
    reveal_strlit("scenekit-scene");
    reveal_strlit("font");
    reveal_strlit("pkcs12");
    reveal_strlit("x509-certificate");
    reveal_strlit("url");
    reveal_strlit("file-url");
    reveal_strlit("url-bookmark-data");
    reveal_strlit("property-list");
    reveal_strlit("xml-property-list");
    reveal_strlit("binary-property-list");
    reveal_strlit("log");
    reveal_strlit("bookmark");
    reveal_strlit("internet-location");
    reveal_strlit("internet-shortcut");
    reveal_strlit("default-app-web-browser");
    reveal_strlit("default-app-mail-client");
    reveal_strlit("m4v-video");
    assert(normalized(name_spec(SuperType::M4aAudio)) =~= "m4a-audio"@);
    let n = normalized(name_spec(SuperType::M4aAudio));
    assert(n != "text"@) by {
        assert("m4a-audio"@.len() != "text"@.len());
    }
    assert(n != "plain-text"@) by {
        assert("m4a-audio"@.len() != "plain-text"@.len());
    }
    assert(n != "csv"@) by {
        assert("m4a-audio"@.len() != "csv"@.len());
    }
    assert(n != "json"@) by {
        assert("m4a-audio"@.len() != "json"@.len());
    }
    assert(n != "xml"@) by {
        assert("m4a-audio"@.len() != "xml"@.len());
    }
    assert(n != "yaml"@) by {
        assert("m4a-audio"@.len() != "yaml"@.len());
    }
    assert(n != "html"@) by {
        assert("m4a-audio"@.len() != "html"@.len());
    }
    assert(n != "markdown"@) by {
        assert("m4a-audio"@.len() != "markdown"@.len());
    }
    assert(n != "rtf"@) by {
        assert("m4a-audio"@.len() != "rtf"@.len());
    }
    assert(n != "image"@) by {
        assert("m4a-audio"@.len() != "image"@.len());
    }
    assert(n != "raw-image"@) by {
        assert("m4a-audio"@[0] != "raw-image"@[0]);
    }
    assert(n != "png"@) by {
        assert("m4a-audio"@.len() != "png"@.len());
    }
    assert(n != "jpeg"@) by {
        assert("m4a-audio"@.len() != "jpeg"@.len());
    }
    assert(n != "gif"@) by {
        assert("m4a-audio"@.len() != "gif"@.len());
    }
    assert(n != "tiff"@) by {
        assert("m4a-audio"@.len() != "tiff"@.len());
    }
    assert(n != "svg"@) by {
        assert("m4a-audio"@.len() != "svg"@.len());
    }
    assert(n != "webp"@) by {
        assert("m4a-audio"@.len() != "webp"@.len());
    }
    assert(n != "heic"@) by {
        assert("m4a-audio"@.len() != "heic"@.len());
    }
    assert(n != "heif"@) by {
        assert("m4a-audio"@.len() != "heif"@.len());
    }
    assert(n != "bmp"@) by {
        assert("m4a-audio"@.len() != "bmp"@.len());
    }
    assert(n != "audio"@) by {
        assert("m4a-audio"@.len() != "audio"@.len());
    }
    assert(n != "mp3"@) by {
        assert("m4a-audio"@.len() != "mp3"@.len());
    }
    assert(n != "wav"@) by {
        assert("m4a-audio"@.len() != "wav"@.len());
    }
    assert(n != "aiff"@) by {
        assert("m4a-audio"@.len() != "aiff"@.len());
    }
    assert(n != "midi"@) by {
        assert("m4a-audio"@.len() != "midi"@.len());
    }
    assert(n != "mp4-audio"@) by {
        assert("m4a-audio"@[1] != "mp4-audio"@[1]);
    }
    assert(n != "apple-protected-mp4-audio"@) by {
        assert("m4a-audio"@.len() != "apple-protected-mp4-audio"@.len());
    }
    assert(n != "flac"@) by {
        assert("m4a-audio"@.len() != "flac"@.len());
    }
    assert(n != "ogg-audio"@) by {
        assert("m4a-audio"@[0] != "ogg-audio"@[0]);
    }
    assert(n != "ac3-audio"@) by {
        assert("m4a-audio"@[0] != "ac3-audio"@[0]);
    }
    assert(n != "aac-audio"@) by {
        assert("m4a-audio"@[0] != "aac-audio"@[0]);
    }
    assert(n != "video"@) by {
        assert("m4a-audio"@.len() != "video"@.len());
    }
    assert(n != "mpeg2-transport-stream"@) by {
        assert("m4a-audio"@.len() != "mpeg2-transport-stream"@.len());
    }
    assert(n != "movie"@) by {
        assert("m4a-audio"@.len() != "movie"@.len());
    }
    assert(n != "quicktime-movie"@) by {
        assert("m4a-audio"@.len() != "quicktime-movie"@.len());
    }
    assert(n != "mp4-movie"@) by {
        assert("m4a-audio"@[1] != "mp4-movie"@[1]);
    }
    assert(n != "apple-protected-mp4-video"@) by {
        assert("m4a-audio"@.len() != "apple-protected-mp4-video"@.len());
    }
    assert(n != "mpeg"@) by {
        assert("m4a-audio"@.len() != "mpeg"@.len());
    }
    assert(n != "mpeg2-video"@) by {
        assert("m4a-audio"@.len() != "mpeg2-video"@.len());
    }
    assert(n != "avi"@) by {
        assert("m4a-audio"@.len() != "avi"@.len());
    }
    assert(n != "dv-movie"@) by {
        assert("m4a-audio"@.len() != "dv-movie"@.len());
    }
    assert(n != "real-media"@) by {
        assert("m4a-audio"@.len() != "real-media"@.len());
    }
    assert(n != "real-audio"@) by {
        assert("m4a-audio"@.len() != "real-audio"@.len());
    }
    assert(n != "webm"@) by {
        assert("m4a-audio"@.len() != "webm"@.len());
    }
    assert(n != "matroska"@) by {
        assert("m4a-audio"@.len() != "matroska"@.len());
    }
    assert(n != "m3u-playlist"@) by {
        assert("m4a-audio"@.len() != "m3u-playlist"@.len());
    }
    assert(n != "archive"@) by {
        assert("m4a-audio"@.len() != "archive"@.len());
    }
    assert(n != "zip"@) by {
        assert("m4a-audio"@.len() != "zip"@.len());
    }
    assert(n != "gzip"@) by {
        assert("m4a-audio"@.len() != "gzip"@.len());
    }
    assert(n != "tar"@) by {
        assert("m4a-audio"@.len() != "tar"@.len());
    }
    assert(n != "bz2"@) by {
        assert("m4a-audio"@.len() != "bz2"@.len());
    }
    assert(n != "apple-archive"@) by {
        assert("m4a-audio"@.len() != "apple-archive"@.len());
    }
    assert(n != "sourcecode"@) by {
        assert("m4a-audio"@.len() != "sourcecode"@.len());
    }
    assert(n != "c-source"@) by {
        assert("m4a-audio"@.len() != "c-source"@.len());
    }
    assert(n != "c-header"@) by {
        assert("m4a-audio"@.len() != "c-header"@.len());
    }
    assert(n != "cpp-source"@) by {
        assert("m4a-audio"@.len() != "cpp-source"@.len());
    }
    assert(n != "cpp-header"@) by {
        assert("m4a-audio"@.len() != "cpp-header"@.len());
    }
    assert(n != "objc-source"@) by {
        assert("m4a-audio"@.len() != "objc-source"@.len());
    }
    assert(n != "objc-plus-plus-source"@) by {
        assert("m4a-audio"@.len() != "objc-plus-plus-source"@.len());
    }
    assert(n != "swift-source"@) by {
        assert("m4a-audio"@.len() != "swift-source"@.len());
    }
    assert(n != "shell"@) by {
        assert("m4a-audio"@.len() != "shell"@.len());
    }
    assert(n != "makefile"@) by {
        assert("m4a-audio"@.len() != "makefile"@.len());
    }
    assert(n != "javascript"@) by {
        assert("m4a-audio"@.len() != "javascript"@.len());
    }
    assert(n != "python-script"@) by {
        assert("m4a-audio"@.len() != "python-script"@.len());
    }
    assert(n != "ruby-script"@) by {
        assert("m4a-audio"@.len() != "ruby-script"@.len());
    }
    assert(n != "perl-script"@) by {
        assert("m4a-audio"@.len() != "perl-script"@.len());
    }
    assert(n != "php-script"@) by {
        assert("m4a-audio"@.len() != "php-script"@.len());
    }
    assert(n != "apple-script"@) by {
        assert("m4a-audio"@.len() != "apple-script"@.len());
    }
    assert(n != "assembly-source"@) by {
        assert("m4a-audio"@.len() != "assembly-source"@.len());
    }
    assert(n != "data"@) by {
        assert("m4a-audio"@.len() != "data"@.len());
    }
    assert(n != "directory"@) by {
        assert("m4a-audio"@[0] != "directory"@[0]);
    }
    assert(n != "folder"@) by {
        assert("m4a-audio"@.len() != "folder"@.len());
    }
    assert(n != "symlink"@) by {
        assert("m4a-audio"@.len() != "symlink"@.len());
    }
    assert(n != "executable"@) by {
        assert("m4a-audio"@.len() != "executable"@.len());
    }
    assert(n != "unix-executable"@) by {
        assert("m4a-audio"@.len() != "unix-executable"@.len());
    }
    assert(n != "app-bundle"@) by {
        assert("m4a-audio"@.len() != "app-bundle"@.len());
    }
    assert(n != "framework"@) by {
        assert("m4a-audio"@[0] != "framework"@[0]);
    }
    assert(n != "disk-image"@) by {
        assert("m4a-audio"@.len() != "disk-image"@.len());
    }
    assert(n != "volume"@) by {
        assert("m4a-audio"@.len() != "volume"@.len());
    }
    assert(n != "mount-point"@) by {
        assert("m4a-audio"@.len() != "mount-point"@.len());
    }
    assert(n != "alias-file"@) by {
        assert("m4a-audio"@.len() != "alias-file"@.len());
    }
    assert(n != "3d-content"@) by {
        assert("m4a-audio"@.len() != "3d-content"@.len());
    }
    assert(n != "usd"@) by {
        assert("m4a-audio"@.len() != "usd"@.len());
    }
    assert(n != "usdz"@) by {
        assert("m4a-audio"@.len() != "usdz"@.len());
    }
    assert(n != "reality-file"@) by {
        assert("m4a-audio"@.len() != "reality-file"@.len());
    }
    assert(n != "scenekit-scene"@) by {
        assert("m4a-audio"@.len() != "scenekit-scene"@.len());
    }
    assert(n != "font"@) by {
        assert("m4a-audio"@.len() != "font"@.len());
    }
    assert(n != "pkcs12"@) by {
        assert("m4a-audio"@.len() != "pkcs12"@.len());
    }
    assert(n != "x509-certificate"@) by {
        assert("m4a-audio"@.len() != "x509-certificate"@.len());
    }
    assert(n != "url"@) by {
        assert("m4a-audio"@.len() != "url"@.len());
    }
    assert(n != "file-url"@) by {
        assert("m4a-audio"@.len() != "file-url"@.len());
    }
    assert(n != "url-bookmark-data"@) by {
        assert("m4a-audio"@.len() != "url-bookmark-data"@.len());
    }
    assert(n != "property-list"@) by {
        assert("m4a-audio"@.len() != "property-list"@.len());
    }
    assert(n != "xml-property-list"@) by {
        assert("m4a-audio"@.len() != "xml-property-list"@.len());
    }
    assert(n != "binary-property-list"@) by {
        assert("m4a-audio"@.len() != "binary-property-list"@.len());
    }
    assert(n != "log"@) by {
        assert("m4a-audio"@.len() != "log"@.len());
    }
    assert(n != "bookmark"@) by {
        assert("m4a-audio"@.len() != "bookmark"@.len());
    }
    assert(n != "internet-location"@) by {
        assert("m4a-audio"@.len() != "internet-location"@.len());
    }
    assert(n != "internet-shortcut"@) by {
        assert("m4a-audio"@.len() != "internet-shortcut"@.len());
    }
    assert(n != "default-app-web-browser"@) by {
        assert("m4a-audio"@.len() != "default-app-web-browser"@.len());
    }
    assert(n != "default-app-mail-client"@) by {
        assert("m4a-audio"@.len() != "default-app-mail-client"@.len());
    }
    assert(n != "m4v-video"@) by {
        assert("m4a-audio"@[2] != "m4v-video"@[2]);
    }
    assert(parse_spec(n) == Some(SuperType::M4aAudio));
}

/// Law: every display name of the vocabulary parses back to its own
/// supertype, so the parse/canonical-string round trip covers the whole
/// enumeration.
pub proof fn lemma_display_name_parses(st: SuperType)
    ensures
        parse_spec(normalized(name_spec(st))) == Some(st),
{
    match st {
        SuperType::Text => lemma_display_parse_text(),
        SuperType::PlainText => lemma_display_parse_plaintext(),
        SuperType::Csv => lemma_display_parse_csv(),
        SuperType::Json => lemma_display_parse_json(),
        SuperType::Xml => lemma_display_parse_xml(),
        SuperType::Yaml => lemma_display_parse_yaml(),
        SuperType::Html => lemma_display_parse_html(),
        SuperType::Markdown => lemma_display_parse_markdown(),
        SuperType::Rtf => lemma_display_parse_rtf(),
        SuperType::Image => lemma_display_parse_image(),
        SuperType::RawImage => lemma_display_parse_rawimage(),
        SuperType::Png => lemma_display_parse_png(),
        SuperType::Jpeg => lemma_display_parse_jpeg(),
        SuperType::Gif => lemma_display_parse_gif(),
        SuperType::Tiff => lemma_display_parse_tiff(),
        SuperType::Svg => lemma_display_parse_svg(),
        SuperType::WebP => lemma_display_parse_webp(),
        SuperType::Heic => lemma_display_parse_heic(),
        SuperType::Heif => lemma_display_parse_heif(),
        SuperType::Bmp => lemma_display_parse_bmp(),
        SuperType::Audio => lemma_display_parse_audio(),
        SuperType::Mp3 => lemma_display_parse_mp3(),
        SuperType::Wav => lemma_display_parse_wav(),
        SuperType::Aiff => lemma_display_parse_aiff(),
        SuperType::Midi => lemma_display_parse_midi(),
        SuperType::Mp4Audio => lemma_display_parse_mp4audio(),
        SuperType::AppleProtectedMp4Audio => lemma_display_parse_appleprotectedmp4audio(),
        SuperType::Flac => lemma_display_parse_flac(),
        SuperType::OggAudio => lemma_display_parse_oggaudio(),
        SuperType::Ac3Audio => lemma_display_parse_ac3audio(),
        SuperType::AacAudio => lemma_display_parse_aacaudio(),
        SuperType::Video => lemma_display_parse_video(),
        SuperType::Mpeg2TransportStream => lemma_display_parse_mpeg2transportstream(),
        SuperType::Movie => lemma_display_parse_movie(),
        SuperType::QuicktimeMovie => lemma_display_parse_quicktimemovie(),
        SuperType::Mp4Movie => lemma_display_parse_mp4movie(),
        SuperType::AppleProtectedMp4Video => lemma_display_parse_appleprotectedmp4video(),
        SuperType::Mpeg => lemma_display_parse_mpeg(),
        SuperType::Mpeg2Video => lemma_display_parse_mpeg2video(),
        SuperType::Avi => lemma_display_parse_avi(),
        SuperType::DvMovie => lemma_display_parse_dvmovie(),
        SuperType::RealMedia => lemma_display_parse_realmedia(),
        SuperType::RealAudio => lemma_display_parse_realaudio(),
        SuperType::Webm => lemma_display_parse_webm(),
        SuperType::Matroska => lemma_display_parse_matroska(),
        SuperType::M3uPlaylist => lemma_display_parse_m3uplaylist(),
        SuperType::Archive => lemma_display_parse_archive(),
        SuperType::Zip => lemma_display_parse_zip(),
        SuperType::Gzip => lemma_display_parse_gzip(),
        SuperType::Tar => lemma_display_parse_tar(),
        SuperType::Bz2 => lemma_display_parse_bz2(),
        SuperType::AppleArchive => lemma_display_parse_applearchive(),
        SuperType::Sourcecode => lemma_display_parse_sourcecode(),
        SuperType::CSource => lemma_display_parse_csource(),
        SuperType::CHeader => lemma_display_parse_cheader(),
        SuperType::CppSource => lemma_display_parse_cppsource(),
        SuperType::CppHeader => lemma_display_parse_cppheader(),
        SuperType::ObjcSource => lemma_display_parse_objcsource(),
        SuperType::ObjcPlusPlusSource => lemma_display_parse_objcplusplussource(),
        SuperType::SwiftSource => lemma_display_parse_swiftsource(),
        SuperType::Shell => lemma_display_parse_shell(),
        SuperType::Makefile => lemma_display_parse_makefile(),
        SuperType::Javascript => lemma_display_parse_javascript(),
        SuperType::PythonScript => lemma_display_parse_pythonscript(),
        SuperType::RubyScript => lemma_display_parse_rubyscript(),
        SuperType::PerlScript => lemma_display_parse_perlscript(),
        SuperType::PhpScript => lemma_display_parse_phpscript(),
        SuperType::AppleScript => lemma_display_parse_applescript(),
        SuperType::AssemblySource => lemma_display_parse_assemblysource(),
        SuperType::Data => lemma_display_parse_data(),
        SuperType::Directory => lemma_display_parse_directory(),
        SuperType::Folder => lemma_display_parse_folder(),
        SuperType::Symlink => lemma_display_parse_symlink(),
        SuperType::Executable => lemma_display_parse_executable(),
        SuperType::UnixExecutable => lemma_display_parse_unixexecutable(),
        SuperType::AppBundle => lemma_display_parse_appbundle(),
        SuperType::Framework => lemma_display_parse_framework(),
        SuperType::DiskImage => lemma_display_parse_diskimage(),
        SuperType::Volume => lemma_display_parse_volume(),
        SuperType::MountPoint => lemma_display_parse_mountpoint(),
        SuperType::AliasFile => lemma_display_parse_aliasfile(),
        SuperType::ThreeDContent => lemma_display_parse_threedcontent(),
        SuperType::Usd => lemma_display_parse_usd(),
        SuperType::Usdz => lemma_display_parse_usdz(),
        SuperType::RealityFile => lemma_display_parse_realityfile(),
        SuperType::SceneKitScene => lemma_display_parse_scenekitscene(),
        SuperType::Font => lemma_display_parse_font(),
        SuperType::Pkcs12 => lemma_display_parse_pkcs12(),
        SuperType::X509Certificate => lemma_display_parse_x509certificate(),
        SuperType::Url => lemma_display_parse_url(),
        SuperType::FileUrl => lemma_display_parse_fileurl(),
        SuperType::UrlBookmarkData => lemma_display_parse_urlbookmarkdata(),
        SuperType::PropertyList => lemma_display_parse_propertylist(),
        SuperType::XmlPropertyList => lemma_display_parse_xmlpropertylist(),
        SuperType::BinaryPropertyList => lemma_display_parse_binarypropertylist(),
        SuperType::Log => lemma_display_parse_log(),
        SuperType::Bookmark => lemma_display_parse_bookmark(),
        SuperType::InternetLocation => lemma_display_parse_internetlocation(),
        SuperType::InternetShortcut => lemma_display_parse_internetshortcut(),
        SuperType::DefaultAppWebBrowser => lemma_display_parse_defaultappwebbrowser(),
        SuperType::DefaultAppMailClient => lemma_display_parse_defaultappmailclient(),
        SuperType::M4vVideo => lemma_display_parse_m4vvideo(),
        SuperType::M4aAudio => lemma_display_parse_m4aaudio(),
    }
}

} // verus!
