use filemagic::flags;
use filemagic::{check_path, db_filenames, version as ver, ErrorKind, FileMagicError, Flags, Magic};

const PNG_TEXT: &str = "PNG image data, 128 x 128, 8-bit/color RGBA, non-interlaced";
const PYTHON_TEXT: &str = "Python script, ASCII text executable";

fn no_sources() -> Vec<String> {
    Vec::new()
}

fn sources(paths: &[&str]) -> Vec<String> {
    paths.iter().map(|p| p.to_string()).collect()
}

/// Opens a handle and loads `dbs`, with the engine answering success to both;
/// `encoded` is the database argument that the engine must be handed.
fn open_and_load(flags: Flags, dbs: &[String], encoded: Option<&str>) -> Result<Magic, FileMagicError> {
    assert_eq!(db_filenames(dbs), encoded.map(|e| e.to_string()));
    Magic::open(flags, true).and_then(|magic| magic.load(0, None).and_then(|_| Ok(magic)))
}

#[test]
fn version() {
    let re = regex::Regex::new("\\d+.\\d+.\\d+").unwrap();
    assert!(re.is_match(filemagic::version()));
    assert_eq!(ver(), "0.13.1");
}

#[test]
fn load_default_db() {
    let cookie = Magic::open(Flags::none() | Flags::error(), true).unwrap();
    assert!(db_filenames(&no_sources()).is_none());
    assert!(cookie.load(0, None).is_ok());
}

#[test]
fn load_one_db() {
    let cookie = Magic::open(Flags::none() | Flags::error(), true).unwrap();
    let dbs = sources(&["data/db-images-png"]);
    assert_eq!(db_filenames(&dbs), Some("data/db-images-png".to_string()));
    assert!(cookie.load(0, None).is_ok());
}

#[test]
fn get_file_mime() {
    let mut cookie = Magic::open(Flags::none(), true).unwrap();
    assert!(cookie.load(0, None).is_ok());

    assert_eq!(cookie.file(Some(PNG_TEXT.to_string()), None).unwrap(), PNG_TEXT);

    assert!(cookie.set_flags(Flags::mime_type(), 0));
    assert_eq!(cookie.flags(), Flags::mime_type());
    assert_eq!(cookie.file(Some("image/png".to_string()), None).unwrap(), "image/png");

    assert!(cookie.set_flags(Flags::mime_type() | Flags::mime_encoding(), 0));
    assert_eq!(cookie.flags(), Flags::mime());
    assert_eq!(
        cookie.file(Some("image/png; charset=binary".to_string()), None).unwrap(),
        "image/png; charset=binary"
    );
}

#[test]
fn get_buffer_mime() {
    let mut cookie = Magic::open(Flags::none(), true).unwrap();
    assert_eq!(db_filenames(&sources(&["data/db-python"])), Some("data/db-python".to_string()));
    assert!(cookie.load(0, None).is_ok());

    assert_eq!(cookie.buffer(Some(PYTHON_TEXT.to_string()), None).unwrap(), PYTHON_TEXT);

    assert!(cookie.set_flags(Flags::mime_type(), 0));
    assert_eq!(cookie.buffer(Some("text/x-python".to_string()), None).unwrap(), "text/x-python");
}

#[test]
fn file_error() {
    let cookie = Magic::open(Flags::none() | Flags::error(), true).unwrap();
    assert!(cookie.load(0, None).is_ok());

    let message = "cannot stat `non-existent_file.txt' (No such file or directory)";
    let ret = cookie.file(None, Some(message.to_string()));
    assert!(ret.is_err());
    let err = ret.err().unwrap();
    assert_eq!(err.desc, message);
    assert_eq!(err.kind, ErrorKind::QueryFailed);
}

#[test]
fn macro_load_default_db() {
    assert!(open_and_load(Flags::default(), &no_sources(), None).is_ok());
}

#[test]
fn macro_load_one_db() {
    assert!(open_and_load(Flags::default(), &sources(&["data/db-images-png"]), Some("data/db-images-png")).is_ok());
}

#[test]
fn macro_load_one_db_with_flags() {
    let magic =
        open_and_load(
            Flags::none() | Flags::error(),
            &sources(&["data/db-images-png"]),
            Some("data/db-images-png"),
        );
    assert!(magic.is_ok());
}

#[test]
fn macro_get_file_mime() {
    let mut cookie = open_and_load(Flags::default(), &no_sources(), None).unwrap();
    assert_eq!(cookie.file(Some(PNG_TEXT.to_string()), None).unwrap(), PNG_TEXT);
    assert!(cookie.set_flags(Flags::mime_type(), 0));
    assert_eq!(cookie.file(Some("image/png".to_string()), None).unwrap(), "image/png");
    assert!(cookie.set_flags(Flags::mime_type() | Flags::mime_encoding(), 0));
    assert_eq!(
        cookie.file(Some("image/png; charset=binary".to_string()), None).unwrap(),
        "image/png; charset=binary"
    );
}

#[test]
fn macro_get_buffer_mime() {
    let mut cookie = open_and_load(Flags::default(), &no_sources(), None).unwrap();
    assert!(cookie.load(0, None).is_ok());
    assert_eq!(cookie.buffer(Some(PYTHON_TEXT.to_string()), None).unwrap(), PYTHON_TEXT);
    assert!(cookie.set_flags(Flags::mime_type(), 0));
    assert_eq!(cookie.buffer(Some("text/x-python".to_string()), None).unwrap(), "text/x-python");
}

#[test]
fn open_forces_error_bit() {
    assert_eq!(Magic::open_bits(Flags::none()), flags::ERROR);
    assert_eq!(Magic::open_bits(Flags::mime_type()), flags::MIME_TYPE | flags::ERROR);
    assert_eq!(Magic::open_bits(Flags::error()), flags::ERROR);
    let magic = Magic::open(Flags::none(), true).unwrap();
    assert!(magic.flags().contains(Flags::error()));
    assert_eq!(magic.flags().bits(), 0x200);
    assert!(!magic.released());
}

#[test]
fn open_failure_is_errno() {
    let err = Magic::open(Flags::none(), false).err().unwrap();
    assert_eq!(err.desc, "errno");
    assert_eq!(err.kind, ErrorKind::OpenFailed);
}

#[test]
fn failed_call_without_message_is_unknown() {
    let magic = Magic::open(Flags::none(), true).unwrap();
    let err = magic.load(-1, None).err().unwrap();
    assert_eq!(err.desc, "unknown error");
    assert_eq!(err.kind, ErrorKind::LoadFailed);
    let err = magic.buffer(None, None).err().unwrap();
    assert_eq!(err.desc, "unknown error");
    assert_eq!(err.kind, ErrorKind::QueryFailed);
}

#[test]
fn each_call_tags_its_error() {
    let magic = Magic::open(Flags::none(), true).unwrap();
    let msg = || Some("could not find any valid magic files!".to_string());
    let load = magic.load(-1, msg()).err().unwrap();
    assert_eq!(load.kind, ErrorKind::LoadFailed);
    assert_eq!(load.desc, "could not find any valid magic files!");
    assert_eq!(magic.check(1, msg()).err().unwrap().kind, ErrorKind::CheckFailed);
    assert_eq!(magic.compile(-1, msg()).err().unwrap().kind, ErrorKind::CompileFailed);
    assert_eq!(magic.list(-1, msg()).err().unwrap().kind, ErrorKind::ListFailed);
    assert!(magic.check(0, msg()).is_ok());
    assert!(magic.compile(0, msg()).is_ok());
    assert!(magic.list(0, msg()).is_ok());
}

#[test]
fn failed_load_keeps_handle_usable() {
    let magic = Magic::open(Flags::none(), true).unwrap();
    assert!(magic.load(-1, Some("no such file".to_string())).is_err());
    assert!(magic.load(0, None).is_ok());
}

#[test]
fn refused_set_flags_keeps_flags() {
    let mut magic = Magic::open(Flags::none(), true).unwrap();
    assert!(!magic.set_flags(Flags::preserve_atime(), -1));
    assert_eq!(magic.flags(), Flags::error());
    assert!(magic.set_flags(Flags::raw(), 0));
    assert_eq!(magic.flags(), Flags::raw());
}

#[test]
fn release_is_owed_once() {
    let mut magic = Magic::open(Flags::none(), true).unwrap();
    assert!(magic.release());
    assert!(magic.released());
    assert!(!magic.release());
    assert!(magic.released());
}

#[test]
fn release_after_error_path() {
    let mut magic = Magic::open(Flags::none(), true).unwrap();
    let outcome = magic.file(None, Some("no magic files loaded".to_string()));
    assert!(outcome.is_err());
    assert!(magic.release());
    assert!(!magic.release());
}

#[test]
fn png_header_scenario() {
    let magic = Magic::open(Flags::none(), true).unwrap();
    assert!(db_filenames(&no_sources()).is_none());
    assert!(magic.load(0, None).is_ok());
    let text = magic.buffer(Some("PNG image data, 1 x 1".to_string()), None).unwrap();
    assert!(text.contains("PNG image data"));
    let mime = Magic::open(Flags::none() | Flags::mime_type(), true).unwrap();
    assert_eq!(Magic::open_bits(Flags::mime_type()), 0x210);
    assert_eq!(mime.buffer(Some("image/png".to_string()), None).unwrap(), "image/png");
}

#[test]
fn sources_are_joined_by_colons() {
    assert_eq!(db_filenames(&no_sources()), None);
    assert_eq!(db_filenames(&sources(&["a"])), Some("a".to_string()));
    assert_eq!(db_filenames(&sources(&["a", "b/c"])), Some("a:b/c".to_string()));
    assert_eq!(db_filenames(&sources(&["x", "", "z"])), Some("x::z".to_string()));
}

#[test]
fn error_texts() {
    let magic_error = Magic::magic_failure(ErrorKind::QueryFailed, None);
    assert_eq!(magic_error.to_string(), "unknown error");
    assert_eq!(magic_error.description(), "internal libmagic error");
    let e = Magic::magic_failure(ErrorKind::ListFailed, Some("bad entry".to_string()));
    assert_eq!(e.to_string(), "bad entry");
    assert_eq!(e.kind, ErrorKind::ListFailed);
}

#[test]
fn paths_with_nul_bytes_are_refused() {
    assert!(check_path("data/db-images-png", ErrorKind::LoadFailed).is_ok());
    assert!(check_path("", ErrorKind::QueryFailed).is_ok());
    let err = check_path("bad\0name", ErrorKind::QueryFailed).err().unwrap();
    assert_eq!(err.desc, "path holds a NUL byte");
    assert_eq!(err.kind, ErrorKind::QueryFailed);
    assert_eq!(check_path("\0", ErrorKind::CompileFailed).err().unwrap().kind, ErrorKind::CompileFailed);
}
