//! Records read from JSON-lines files,
//! `<root>/<channel>/<day>.jsonl`, plain or compressed.

use crate::text::ends_with;
use crate::text::ends_with_spec;
use crate::text::has_extension;
use crate::text::has_extension_spec;
use vstd::prelude::*;

verus! {

/// How many files are read before their lines are parsed together.
pub const FILES_PER_CHUNK: usize = 30;

/// Where the files are.
#[derive(Clone, Debug, PartialEq, Eq)]
pub struct JsonFileSourceContext {
    pub root_dir: String,
}

/// A directory of JSON-lines files.
#[derive(Clone, Debug, PartialEq, Eq)]
pub struct JsonFileSource {
    pub ctx: JsonFileSourceContext,
}

/// A file to read.
#[derive(Clone, Debug, PartialEq, Eq)]
pub struct JsonFileTarget {
    pub path: String,
}

/// How a file is packed.
#[derive(Clone, Copy, Debug, PartialEq, Eq, Structural)]
pub enum Compression {
    Plain,
    Gzip,
    Zstd,
    Brotli,
}

/// Whether a file name is that of a JSON-lines file: it ends with `.jsonl`,
/// or with that and `.gz`, `.zst` or `.br`.
pub open spec fn is_jsonl_file_spec(path: Seq<char>) -> bool {
    ends_with_spec(path, ".jsonl"@) || ends_with_spec(path, ".jsonl.gz"@) || ends_with_spec(
        path,
        ".jsonl.zst"@,
    ) || ends_with_spec(path, ".jsonl.br"@)
}

/// How a file is packed, by its extension.
pub open spec fn compression_spec(path: Seq<char>) -> Compression {
    if has_extension_spec(path, "gz"@) {
        Compression::Gzip
    } else if has_extension_spec(path, "zst"@) {
        Compression::Zstd
    } else if has_extension_spec(path, "br"@) {
        Compression::Brotli
    } else {
        Compression::Plain
    }
}

impl JsonFileSource {
    /// The source that reads the directory `root_dir`.
    pub fn new(root_dir: String) -> (r: JsonFileSource)
        ensures
            r.ctx.root_dir == root_dir,
    {
        JsonFileSource { ctx: JsonFileSourceContext { root_dir } }
    }

    /// Whether a file name is that of a JSON-lines file.
    pub fn is_jsonl_file(path: &str) -> (r: bool)
        ensures
            r == is_jsonl_file_spec(path@),
    {
        ends_with(path, ".jsonl") || ends_with(path, ".jsonl.gz") || ends_with(path, ".jsonl.zst")
            || ends_with(path, ".jsonl.br")
    }

    /// How a file is packed.
    pub fn compression(path: &str) -> (r: Compression)
        ensures
            r == compression_spec(path@),
    {
        if has_extension(path, "gz") {
            Compression::Gzip
        } else if has_extension(path, "zst") {
            Compression::Zstd
        } else if has_extension(path, "br") {
            Compression::Brotli
        } else {
            Compression::Plain
        }
    }
}

} // verus!
