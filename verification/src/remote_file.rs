//! References to files at external sources.

use vstd::prelude::*;

verus! {

/// A reference to one file at an external source.
///
/// Exactly two facts about a remote file ever feed a cache key: the
/// stable identifier of the source it comes from and the stable, fully
/// qualified location of the file within that source, in URI form.  Any
/// change to either string is a deliberate, total cache invalidation for
/// that file.
#[derive(Debug, Clone)]
pub struct RemoteFile {
    /// The stable identifier of the source.
    pub source_id: String,
    /// The fully qualified location of the file, including its scheme.
    pub uri: String,
}

impl RemoteFile {
    /// A file at a source, located by an already fully qualified URI.
    pub fn new(source_id: String, uri: String) -> (r: RemoteFile)
        ensures
            r.source_id@ == source_id@,
            r.uri@ == uri@,
    {
        RemoteFile { source_id, uri }
    }

    /// A file under a filesystem source: its URI is the source-relative
    /// path under the `file:///` scheme.
    pub fn filesystem(source_id: &str, path: &str) -> (r: RemoteFile)
        ensures
            r.source_id@ == source_id@,
            r.uri@ == "file:///"@ + path@,
    {
        let mut uri = String::from_str("file:///");
        uri.append(path);
        RemoteFile { source_id: String::from_str(source_id), uri }
    }

    /// The stable identifier of the source this file comes from.
    pub fn source_id(&self) -> (r: &str)
        ensures
            r@ == self.source_id@,
    {
        self.source_id.as_str()
    }

    /// The fully qualified location of this file, in URI form.
    pub fn uri(&self) -> (r: &str)
        ensures
            r@ == self.uri@,
    {
        self.uri.as_str()
    }
}

} // verus!
