//! Where the planetary data of a context are fetched from.
use vstd::prelude::*;

use super::QcContext;

verus! {

/// A planetary data file to fetch: its location and, when known, the CRC32
/// checksum it must have.
#[derive(Debug, Clone, PartialEq, Eq)]
pub struct AlmanacFile {
    /// Location of the file
    pub uri: String,
    /// Expected CRC32 checksum of the file
    pub crc32: Option<u32>,
}

/// Location of the planetary ephemerides of the nyx-space servers.
pub open spec fn de440s_uri() -> Seq<char> {
    "http://public-data.nyxspace.com/anise/de440s.bsp"@
}

/// Location of the planetary constants of the nyx-space servers.
pub open spec fn pck11_uri() -> Seq<char> {
    "http://public-data.nyxspace.com/anise/v0.5/pck11.pca"@
}

/// Location of the latest high precision Earth orientation of the nyx-space servers.
pub open spec fn earth_bpc_uri() -> Seq<char> {
    "http://public-data.nyxspace.com/anise/v0.5/earth_latest_high_prec.bpc"@
}

/// The address every planetary data file is served from.
pub open spec fn nyx_space_prefix() -> Seq<char> {
    "http://public-data.nyxspace.com/anise/"@
}

/// Whether `f` is served by the nyx-space servers.
pub open spec fn nyx_served(f: AlmanacFile) -> bool {
    nyx_space_prefix().is_prefix_of(f.uri@)
}

proof fn lemma_served(uri: Seq<char>, known: Seq<char>)
    requires
        uri == known,
        known == de440s_uri() || known == pck11_uri() || known == earth_bpc_uri(),
    ensures
        nyx_space_prefix().is_prefix_of(uri),
{
    reveal_strlit("http://public-data.nyxspace.com/anise/");
    reveal_strlit("http://public-data.nyxspace.com/anise/de440s.bsp");
    reveal_strlit("http://public-data.nyxspace.com/anise/v0.5/pck11.pca");
    reveal_strlit("http://public-data.nyxspace.com/anise/v0.5/earth_latest_high_prec.bpc");
    assert(nyx_space_prefix().len() <= uri.len());
    assert(uri.subrange(0, nyx_space_prefix().len() as int) =~= nyx_space_prefix());
}

impl QcContext {
    /// Planetary ephemerides file.
    pub fn anise_de440s_bsp() -> (f: AlmanacFile)
        ensures
            f.uri@ == de440s_uri(),
            f.crc32 == Some(0x7286750au32),
    {
        AlmanacFile {
            crc32: Some(0x7286750a),
            uri: String::from_str("http://public-data.nyxspace.com/anise/de440s.bsp"),
        }
    }

    /// Planetary constants file.
    pub fn anise_pck11_pca() -> (f: AlmanacFile)
        ensures
            f.uri@ == pck11_uri(),
            f.crc32 == Some(0x8213b6e9u32),
    {
        AlmanacFile {
            crc32: Some(0x8213b6e9),
            uri: String::from_str("http://public-data.nyxspace.com/anise/v0.5/pck11.pca"),
        }
    }

    /// High precision Earth orientation file; it is updated often, so no
    /// checksum is expected.
    pub fn anise_jpl_bpc() -> (f: AlmanacFile)
        ensures
            f.uri@ == earth_bpc_uri(),
            f.crc32 is None,
    {
        AlmanacFile {
            crc32: None,
            uri: String::from_str("http://public-data.nyxspace.com/anise/v0.5/earth_latest_high_prec.bpc"),
        }
    }

    /// The files of the default planetary data, which solely rely on the
    /// nyx-space servers: planetary constants, then ephemerides.
    pub fn default_meta_almanac() -> (files: Vec<AlmanacFile>)
        ensures
            files@.len() == 2,
            files@[0].uri@ == pck11_uri() && files@[0].crc32 == Some(0x8213b6e9u32),
            files@[1].uri@ == de440s_uri() && files@[1].crc32 == Some(0x7286750au32),
            forall|i: int| 0 <= i < files@.len() ==> nyx_served(#[trigger] files@[i]),
    {
        let mut files: Vec<AlmanacFile> = Vec::new();
        files.push(Self::anise_pck11_pca());
        files.push(Self::anise_de440s_bsp());
        proof {
            lemma_served(files@[0].uri@, pck11_uri());
            lemma_served(files@[1].uri@, de440s_uri());
        }
        files
    }

    /// The files of the high precision planetary data: the default ones, then
    /// the high precision Earth orientation.
    pub fn high_precision_meta_almanac() -> (files: Vec<AlmanacFile>)
        ensures
            files@.len() == 3,
            files@[0].uri@ == pck11_uri() && files@[0].crc32 == Some(0x8213b6e9u32),
            files@[1].uri@ == de440s_uri() && files@[1].crc32 == Some(0x7286750au32),
            files@[2].uri@ == earth_bpc_uri() && files@[2].crc32 is None,
            forall|i: int| 0 <= i < files@.len() ==> nyx_served(#[trigger] files@[i]),
    {
        let mut files: Vec<AlmanacFile> = Vec::new();
        files.push(Self::anise_pck11_pca());
        files.push(Self::anise_de440s_bsp());
        files.push(Self::anise_jpl_bpc());
        proof {
            lemma_served(files@[0].uri@, pck11_uri());
            lemma_served(files@[1].uri@, de440s_uri());
            lemma_served(files@[2].uri@, earth_bpc_uri());
        }
        files
    }
}

} // verus!
