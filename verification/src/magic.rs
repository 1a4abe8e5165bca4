//! The byte patterns by which the detector knows a format.

use vstd::prelude::*;

verus! {

/// The two bytes that open a gzip stream.
pub const GZIP_MAGIC: [u8; 2] = [0x1f, 0x8b];

/// `BZ`.
pub const BZIP2_MAGIC: [u8; 2] = [0x42, 0x5a];

/// `!<arch>` and a line feed.
pub const AR_MAGIC: [u8; 8] = [0x21, 0x3c, 0x61, 0x72, 0x63, 0x68, 0x3e, 0x0a];

/// `PK` and the bytes 3 and 4: a local file header of ZIP.
pub const ZIP_MAGIC: [u8; 4] = [0x50, 0x4b, 0x03, 0x04];

/// `Rar!`.
pub const RAR_MAGIC: [u8; 4] = [0x52, 0x61, 0x72, 0x21];

/// `7z` and the four bytes that follow it in a 7-Zip archive.
pub const SEVEN_ZIP_MAGIC: [u8; 6] = [0x37, 0x7a, 0xbc, 0xaf, 0x27, 0x1c];

/// The byte 0x7f and `ELF`.
pub const ELF_MAGIC: [u8; 4] = [0x7f, 0x45, 0x4c, 0x46];

/// The byte 0x89 and `PNG`.
pub const PNG_MAGIC: [u8; 4] = [0x89, 0x50, 0x4e, 0x47];

/// `GIF87a`.
pub const GIF87_MAGIC: [u8; 6] = [0x47, 0x49, 0x46, 0x38, 0x37, 0x61];

/// `GIF89a`.
pub const GIF89_MAGIC: [u8; 6] = [0x47, 0x49, 0x46, 0x38, 0x39, 0x61];

/// The start-of-image marker of JPEG and the first byte of the next marker.
pub const JPEG_MAGIC: [u8; 3] = [0xff, 0xd8, 0xff];

/// `BM`.
pub const BMP_MAGIC: [u8; 2] = [0x42, 0x4d];

/// `%PDF`.
pub const PDF_MAGIC: [u8; 4] = [0x25, 0x50, 0x44, 0x46];

/// `<!DO`.
pub const DOCTYPE_MAGIC: [u8; 4] = [0x3c, 0x21, 0x44, 0x4f];

/// `<html`.
pub const HTML_MAGIC: [u8; 5] = [0x3c, 0x68, 0x74, 0x6d, 0x6c];

/// `<?xml`.
pub const XML_MAGIC: [u8; 5] = [0x3c, 0x3f, 0x78, 0x6d, 0x6c];

/// `#!`.
pub const SHEBANG_MAGIC: [u8; 2] = [0x23, 0x21];

/// `ZOO` and a space.
pub const ZOO_MAGIC: [u8; 4] = [0x5a, 0x4f, 0x4f, 0x20];

/// `SIT!`.
pub const STUFFIT_MAGIC: [u8; 4] = [0x53, 0x49, 0x54, 0x21];

/// `MSCF`.
pub const CABINET_MAGIC: [u8; 4] = [0x4d, 0x53, 0x43, 0x46];

/// `SZDD`.
pub const SZDD_MAGIC: [u8; 4] = [0x53, 0x5a, 0x44, 0x44];

/// `ustar` and a NUL.
pub const USTAR_MAGIC: [u8; 6] = [0x75, 0x73, 0x74, 0x61, 0x72, 0x00];

/// `ustar`, two spaces and a NUL.
pub const USTAR_GNU_MAGIC: [u8; 8] = [0x75, 0x73, 0x74, 0x61, 0x72, 0x20, 0x20, 0x00];

/// `070701`.
pub const CPIO_NEWC_MAGIC: [u8; 6] = [0x30, 0x37, 0x30, 0x37, 0x30, 0x31];

/// `070702`.
pub const CPIO_CRC_MAGIC: [u8; 6] = [0x30, 0x37, 0x30, 0x37, 0x30, 0x32];

/// `070707`.
pub const CPIO_ODC_MAGIC: [u8; 6] = [0x30, 0x37, 0x30, 0x37, 0x30, 0x37];

/// The magic number 0407 of an a.out file, low byte first.
pub const PDP11_OMAGIC: [u8; 2] = [0x01, 0x07];

/// The magic number 0410 of an a.out file, low byte first.
pub const PDP11_NMAGIC: [u8; 2] = [0x01, 0x08];

/// The magic number 0413 of an a.out file, low byte first.
pub const PDP11_ZMAGIC: [u8; 2] = [0x01, 0x0b];

/// The magic number 0414 of an a.out file, low byte first.
pub const PDP11_QMAGIC: [u8; 2] = [0x01, 0x0c];

/// The magic number of a PDP-11 archive.
pub const PDP11_ARCHIVE_MAGIC: [u8; 2] = [0x02, 0x07];

/// `BACKUP`.
pub const BACKUP_WORD: [u8; 6] = [0x42, 0x41, 0x43, 0x4b, 0x55, 0x50];

/// `SAVE SET`.
pub const SAVE_SET_WORD: [u8; 8] = [0x53, 0x41, 0x56, 0x45, 0x20, 0x53, 0x45, 0x54];

/// `BRU`.
pub const BRU_WORD: [u8; 3] = [0x42, 0x52, 0x55];

/// The binary cpio magic and three NULs, as AFIO writes them.
pub const AFIO_MAGIC: [u8; 5] = [0x71, 0xc7, 0x00, 0x00, 0x00];

/// `QIC` and a NUL.
pub const QIC_MAGIC: [u8; 4] = [0x51, 0x49, 0x43, 0x00];

/// A NUL and `QIC`.
pub const QIC_SHIFTED_MAGIC: [u8; 4] = [0x00, 0x51, 0x49, 0x43];

/// `QF` and two NULs.
pub const QIC_113_MAGIC: [u8; 4] = [0x51, 0x46, 0x00, 0x00];

/// `TAPE`.
pub const MTF_MAGIC: [u8; 4] = [0x54, 0x41, 0x50, 0x45];

/// `BTF` and a NUL.
pub const BTF_MAGIC: [u8; 4] = [0x42, 0x54, 0x46, 0x00];

/// `NWSM`.
pub const NOVELL_MAGIC: [u8; 4] = [0x4e, 0x57, 0x53, 0x4d];

/// `ltfsindex`.
pub const LTFS_INDEX_WORD: [u8; 9] = [0x6c, 0x74, 0x66, 0x73, 0x69, 0x6e, 0x64, 0x65, 0x78];

/// `LTFS`.
pub const LTFS_MAGIC: [u8; 4] = [0x4c, 0x54, 0x46, 0x53];

/// The four bytes that open every SMPTE universal label.
pub const MXF_KEY_MAGIC: [u8; 4] = [0x06, 0x0e, 0x2b, 0x34];

/// The four bytes that follow them in the key of an MXF partition pack.
pub const MXF_PARTITION_MAGIC: [u8; 4] = [0x02, 0x05, 0x01, 0x01];

/// `VOL`.
pub const VOL_WORD: [u8; 3] = [0x56, 0x4f, 0x4c];

/// `HDR`.
pub const HDR_WORD: [u8; 3] = [0x48, 0x44, 0x52];

/// `EOF`.
pub const EOF_WORD: [u8; 3] = [0x45, 0x4f, 0x46];

/// `EOV`.
pub const EOV_WORD: [u8; 3] = [0x45, 0x4f, 0x56];

/// A carriage return and a line feed.
pub const CRLF: [u8; 2] = [0x0d, 0x0a];

} // verus!
