//! Telling archive and backup formats apart by their first bytes.

use vstd::prelude::*;
use vstd::string::*;
use crate::bytes::{
    all_in_class, contains_byte, contains_within, count_in_class, find_within, found_at,
    spec_all_in, spec_contains_within, spec_count, spec_find_within, spec_found_at, ByteClass,
};
use crate::magic::{
    AFIO_MAGIC, AR_MAGIC, BACKUP_WORD, BMP_MAGIC, BRU_WORD, BTF_MAGIC, BZIP2_MAGIC,
    CABINET_MAGIC, CPIO_CRC_MAGIC, CPIO_NEWC_MAGIC, CPIO_ODC_MAGIC, CRLF, DOCTYPE_MAGIC,
    ELF_MAGIC, EOF_WORD, EOV_WORD, GIF87_MAGIC, GIF89_MAGIC, GZIP_MAGIC, HDR_WORD, HTML_MAGIC,
    JPEG_MAGIC, LTFS_INDEX_WORD, LTFS_MAGIC, MTF_MAGIC, MXF_KEY_MAGIC, MXF_PARTITION_MAGIC,
    NOVELL_MAGIC, PDF_MAGIC, PDP11_ARCHIVE_MAGIC, PDP11_NMAGIC, PDP11_OMAGIC, PDP11_QMAGIC,
    PDP11_ZMAGIC, PNG_MAGIC, QIC_113_MAGIC, QIC_MAGIC, QIC_SHIFTED_MAGIC, RAR_MAGIC,
    SAVE_SET_WORD, SEVEN_ZIP_MAGIC, SHEBANG_MAGIC, STUFFIT_MAGIC, SZDD_MAGIC, USTAR_GNU_MAGIC,
    USTAR_MAGIC, VOL_WORD, XML_MAGIC, ZIP_MAGIC, ZOO_MAGIC,
};
use crate::text::{
    chars_string, decimal, spec_chars, spec_decimal, spec_join, spec_text_option,
};
use crate::word::{spec_word_at, word_at};

verus! {

/// What a detector found in a record.
#[derive(Debug, Clone, PartialEq, Eq)]
pub struct RecordSignature {
    pub tag: String,
    pub description: String,
    pub format: Option<String>,
    pub platform: Option<String>,
    pub confidence: String,
    pub details: Option<String>,
}

/// A signature as a value.
pub struct SignatureModel {
    pub tag: Seq<char>,
    pub description: Seq<char>,
    pub format: Option<Seq<char>>,
    pub platform: Option<Seq<char>>,
    pub confidence: Seq<char>,
    pub details: Option<Seq<char>>,
}

/// The text of an optional string slice.
pub open spec fn spec_str_option(o: Option<&str>) -> Option<Seq<char>> {
    match o {
        Some(s) => Some(s@),
        None => None,
    }
}

impl View for RecordSignature {
    type V = SignatureModel;

    open spec fn view(&self) -> SignatureModel {
        SignatureModel {
            tag: self.tag@,
            description: self.description@,
            format: spec_text_option(self.format),
            platform: spec_text_option(self.platform),
            confidence: self.confidence@,
            details: spec_text_option(self.details),
        }
    }
}

impl DeepView for RecordSignature {
    type V = SignatureModel;

    open spec fn deep_view(&self) -> SignatureModel {
        self@
    }
}

/// A signature with a tag and a description, of medium confidence.
pub open spec fn spec_signature(tag: Seq<char>, description: Seq<char>) -> SignatureModel {
    SignatureModel {
        tag,
        description,
        format: None,
        platform: None,
        confidence: "medium"@,
        details: None,
    }
}

impl SignatureModel {
    /// The signature with the given format.
    pub open spec fn with_format(self, fmt: Seq<char>) -> SignatureModel {
        SignatureModel { format: Some(fmt), ..self }
    }

    /// The signature with the given platform.
    pub open spec fn with_platform(self, platform: Seq<char>) -> SignatureModel {
        SignatureModel { platform: Some(platform), ..self }
    }

    /// The signature with the given confidence in place of its own.
    pub open spec fn with_confidence(self, confidence: Seq<char>) -> SignatureModel {
        SignatureModel { confidence, ..self }
    }

    /// The signature with the given details.
    pub open spec fn with_details(self, details: Seq<char>) -> SignatureModel {
        SignatureModel { details: Some(details), ..self }
    }

    /// The signature with a format and a platform where they are given
    /// and not empty.
    pub open spec fn with_known(self, fmt: Option<Seq<char>>, platform: Option<Seq<char>>) -> SignatureModel {
        let with_fmt = match fmt {
            Some(f) => if f.len() > 0 {
                self.with_format(f)
            } else {
                self
            },
            None => self,
        };
        match platform {
            Some(p) => if p.len() > 0 {
                with_fmt.with_platform(p)
            } else {
                with_fmt
            },
            None => with_fmt,
        }
    }

    /// The one-line form that a summary lists: the description, the
    /// confidence, and the details where there are any.
    pub open spec fn summary_detail(self) -> Seq<char> {
        self.description + (if self.confidence.len() > 0 {
            " (confidence: "@ + self.confidence + ")"@
        } else {
            Seq::<char>::empty()
        }) + spec_details_suffix(self.details)
    }

    /// The formats and platforms that are given and not empty.
    pub open spec fn extras(self) -> Seq<Seq<char>> {
        spec_present(self.format) + spec_present(self.platform)
    }

    /// The one-line form that a report prints under a record.
    pub open spec fn describe_full(self) -> Seq<char> {
        self.description + (if self.confidence.len() > 0 {
            " ["@ + self.confidence + "]"@
        } else {
            Seq::<char>::empty()
        }) + (if self.extras().len() > 0 {
            " -> "@ + spec_join(self.extras(), " / "@)
        } else {
            Seq::<char>::empty()
        }) + spec_details_suffix(self.details)
    }
}

/// ` - ` and the details, where there are any.
pub open spec fn spec_details_suffix(details: Option<Seq<char>>) -> Seq<char> {
    match details {
        Some(extra) => if extra.len() > 0 {
            " - "@ + extra
        } else {
            Seq::<char>::empty()
        },
        None => Seq::<char>::empty(),
    }
}

/// The text as a list of one, unless it is missing or empty.
pub open spec fn spec_present(text: Option<Seq<char>>) -> Seq<Seq<char>> {
    match text {
        Some(t) => if t.len() > 0 {
            seq![t]
        } else {
            Seq::<Seq<char>>::empty()
        },
        None => Seq::<Seq<char>>::empty(),
    }
}

impl RecordSignature {
    /// A signature with a tag and a description, of medium confidence.
    pub fn new(tag: &str, description: &str) -> (s: Self)
        ensures
            s@ == spec_signature(tag@, description@),
    {
        Self {
            tag: String::from_str(tag),
            description: String::from_str(description),
            format: None,
            platform: None,
            confidence: String::from_str("medium"),
            details: None,
        }
    }

    /// The signature with the given format.
    pub fn with_format(self, fmt: &str) -> (s: Self)
        ensures
            s@ == self@.with_format(fmt@),
    {
        let mut s = self;
        s.format = Some(String::from_str(fmt));
        s
    }

    /// The signature with the given platform.
    pub fn with_platform(self, platform: &str) -> (s: Self)
        ensures
            s@ == self@.with_platform(platform@),
    {
        let mut s = self;
        s.platform = Some(String::from_str(platform));
        s
    }

    /// The signature with the given confidence in place of its own.
    pub fn with_confidence(self, confidence: &str) -> (s: Self)
        ensures
            s@ == self@.with_confidence(confidence@),
    {
        let mut s = self;
        s.confidence = String::from_str(confidence);
        s
    }

    /// The signature with the given details.
    pub fn with_details(self, details: &str) -> (s: Self)
        ensures
            s@ == self@.with_details(details@),
    {
        let mut s = self;
        s.details = Some(String::from_str(details));
        s
    }

    fn append_details(&self, line: &mut String)
        ensures
            final(line)@ == old(line)@ + spec_details_suffix(self@.details),
    {
        match &self.details {
            Some(extra) => {
                if !extra.as_str().is_empty() {
                    line.append(" - ");
                    line.append(extra.as_str());
                }
            },
            None => {},
        }
        assert(line@ =~= old(line)@ + spec_details_suffix(self@.details));
    }

    /// The one-line form that a summary lists.
    pub fn summary_detail(&self) -> (detail: String)
        ensures
            detail@ == self@.summary_detail(),
    {
        let mut detail = self.description.clone();
        if !self.confidence.as_str().is_empty() {
            detail.append(" (confidence: ");
            detail.append(self.confidence.as_str());
            detail.append(")");
        }
        self.append_details(&mut detail);
        assert(detail@ =~= self@.summary_detail());
        detail
    }

    /// The one-line form that a report prints under a record.
    pub fn describe_full(&self) -> (line: String)
        ensures
            line@ == self@.describe_full(),
    {
        let mut line = self.description.clone();
        if !self.confidence.as_str().is_empty() {
            line.append(" [");
            line.append(self.confidence.as_str());
            line.append("]");
        }
        let ghost head = line@;
        let mut any: bool = false;
        match &self.format {
            Some(fmt) => {
                if !fmt.as_str().is_empty() {
                    line.append(" -> ");
                    line.append(fmt.as_str());
                    any = true;
                }
            },
            None => {},
        }
        match &self.platform {
            Some(platform) => {
                if !platform.as_str().is_empty() {
                    if any {
                        line.append(" / ");
                    } else {
                        line.append(" -> ");
                    }
                    line.append(platform.as_str());
                }
            },
            None => {},
        }
        proof {
            let extras = self@.extras();
            let tail = if extras.len() > 0 {
                " -> "@ + spec_join(extras, " / "@)
            } else {
                Seq::<char>::empty()
            };
            if extras.len() == 2 {
                assert(extras.drop_last() =~= seq![extras[0]]);
                assert(spec_join(extras.drop_last(), " / "@) == extras[0]);
            }
            assert(line@ =~= head + tail);
        }
        self.append_details(&mut line);
        assert(line@ =~= self@.describe_full());
        line
    }
}

/// The signature as a list of one where the rule holds, else the empty list.
pub open spec fn spec_when(hit: bool, signature: SignatureModel) -> Seq<SignatureModel> {
    if hit {
        seq![signature]
    } else {
        Seq::<SignatureModel>::empty()
    }
}

/// A rule of the prefix table: the signature of a format whose files
/// begin with `magic`.
pub open spec fn spec_prefix_rule(
    data: Seq<u8>,
    magic: Seq<u8>,
    tag: Seq<char>,
    description: Seq<char>,
    fmt: Option<Seq<char>>,
    platform: Option<Seq<char>>,
    confidence: Seq<char>,
) -> Seq<SignatureModel> {
    spec_when(
        spec_found_at(data, 0, magic),
        spec_signature(tag, description).with_confidence(confidence).with_known(fmt, platform),
    )
}

/// Fixed magic numbers at the start of the record.
pub open spec fn spec_detect_magic_prefixes(data: Seq<u8>) -> Seq<SignatureModel> {
    spec_prefix_rule(
        data,
        GZIP_MAGIC@,
        "gzip"@,
        "GZIP compressed file"@,
        Some("GZIP"@),
        Some("Unix/Linux"@),
        "high"@,
    ) + spec_prefix_rule(
        data,
        BZIP2_MAGIC@,
        "bzip2"@,
        "BZIP2 compressed file"@,
        Some("BZIP2"@),
        Some("Unix/Linux"@),
        "high"@,
    ) + spec_prefix_rule(
        data,
        AR_MAGIC@,
        "ar"@,
        "Unix ar archive"@,
        Some("ar archive"@),
        Some("Unix/Linux"@),
        "high"@,
    ) + spec_prefix_rule(
        data,
        ZIP_MAGIC@,
        "zip"@,
        "ZIP archive"@,
        Some("ZIP"@),
        None,
        "high"@,
    ) + spec_prefix_rule(
        data,
        RAR_MAGIC@,
        "rar"@,
        "RAR archive"@,
        Some("RAR"@),
        None,
        "high"@,
    ) + spec_prefix_rule(
        data,
        SEVEN_ZIP_MAGIC@,
        "7zip"@,
        "7-Zip archive"@,
        Some("7-Zip"@),
        None,
        "high"@,
    ) + spec_prefix_rule(
        data,
        ELF_MAGIC@,
        "elf"@,
        "ELF executable"@,
        Some("ELF"@),
        Some("Unix/Linux"@),
        "high"@,
    ) + spec_prefix_rule(
        data,
        PNG_MAGIC@,
        "png"@,
        "PNG image"@,
        Some("PNG"@),
        None,
        "high"@,
    ) + spec_prefix_rule(
        data,
        GIF87_MAGIC@,
        "gif87"@,
        "GIF image (87a)"@,
        Some("GIF"@),
        None,
        "high"@,
    ) + spec_prefix_rule(
        data,
        GIF89_MAGIC@,
        "gif89"@,
        "GIF image (89a)"@,
        Some("GIF"@),
        None,
        "high"@,
    ) + spec_prefix_rule(
        data,
        JPEG_MAGIC@,
        "jpeg"@,
        "JPEG image"@,
        Some("JPEG"@),
        None,
        "high"@,
    ) + spec_prefix_rule(
        data,
        BMP_MAGIC@,
        "bmp"@,
        "Bitmap image"@,
        Some("BMP"@),
        None,
        "high"@,
    ) + spec_prefix_rule(
        data,
        PDF_MAGIC@,
        "pdf"@,
        "PDF document"@,
        Some("PDF"@),
        None,
        "high"@,
    ) + spec_prefix_rule(
        data,
        DOCTYPE_MAGIC@,
        "doctype"@,
        "HTML/XML document"@,
        Some("HTML"@),
        None,
        "medium"@,
    ) + spec_prefix_rule(
        data,
        HTML_MAGIC@,
        "html"@,
        "HTML document"@,
        Some("HTML"@),
        None,
        "medium"@,
    ) + spec_prefix_rule(
        data,
        XML_MAGIC@,
        "xml"@,
        "XML document"@,
        Some("XML"@),
        None,
        "medium"@,
    ) + spec_prefix_rule(
        data,
        SHEBANG_MAGIC@,
        "shebang"@,
        "Script with shebang"@,
        Some("Script"@),
        None,
        "medium"@,
    )
}

/// The letters and digits of ASCII.
pub open spec fn spec_is_ascii_alphanumeric(b: u8) -> bool {
    48 <= b <= 57 || 65 <= b <= 90 || 97 <= b <= 122
}

/// The header of an LHA archive: `-lh`, or `-lz`, a letter or digit and
/// `-`, from the third byte on.
pub open spec fn spec_is_lha(data: Seq<u8>) -> bool {
    &&& data.len() >= 7
    &&& data[2] == 0x2d
    &&& data[3] == 0x6c
    &&& (data[4] == 0x68 || data[4] == 0x7a)
    &&& spec_is_ascii_alphanumeric(data[5])
    &&& data[6] == 0x2d
}

/// Compressors and archivers of the eighties and nineties.
pub open spec fn spec_detect_legacy_compression(data: Seq<u8>) -> Seq<SignatureModel> {
    spec_when(
        data.len() >= 2 && data[0] == 0x1f && (data[1] == 0x9d || data[1] == 0xa0),
        spec_signature("compress-z"@, "Unix compress (.Z) file"@).with_format("compress (.Z)"@).with_platform(
            "Unix/System V"@,
        ).with_confidence("high"@),
    ) + spec_when(
        data.len() >= 2 && data[0] == 0x1a && 1 <= data[1] <= 8,
        spec_signature("arc"@, "ARC/PKPAK archive header"@).with_format("ARC archive"@).with_platform(
            "MS-DOS / CP/M"@,
        ).with_confidence("medium"@),
    ) + spec_when(
        data.len() >= 2 && data[0] == 0x60 && data[1] == 0xea,
        spec_signature("arj"@, "ARJ archive header"@).with_format("ARJ archive"@).with_platform(
            "MS-DOS / OS/2"@,
        ).with_confidence("high"@),
    ) + spec_when(
        spec_found_at(data, 0, ZOO_MAGIC@),
        spec_signature("zoo"@, "ZOO archive header"@).with_format("ZOO archive"@).with_platform(
            "MS-DOS"@,
        ).with_confidence("medium"@),
    ) + spec_when(
        spec_found_at(data, 0, STUFFIT_MAGIC@),
        spec_signature("stuffit"@, "StuffIt archive"@).with_format("StuffIt archive"@).with_platform(
            "Classic Mac OS"@,
        ).with_confidence("high"@),
    ) + spec_when(
        spec_found_at(data, 0, CABINET_MAGIC@),
        spec_signature("cab"@, "Microsoft Cabinet (CAB) file"@).with_format(
            "Microsoft Cabinet (CAB)"@,
        ).with_platform("Windows 3.x/95/NT"@).with_confidence("high"@),
    ) + spec_when(
        spec_found_at(data, 0, SZDD_MAGIC@),
        spec_signature("szdd"@, "Microsoft Compress (SZDD) file"@).with_format(
            "Microsoft Compress (.??_)"@,
        ).with_platform("MS-DOS / Windows"@).with_confidence("medium"@).with_details(
            "Can be expanded with the 'expand' utility"@,
        ),
    ) + spec_when(
        spec_is_lha(data),
        spec_signature("lha"@, "LHA/LZH archive header"@).with_format("LHA/LZH archive"@).with_platform(
            "MS-DOS / Amiga"@,
        ).with_confidence("medium"@).with_details("Header marker '-lh?-' starts at offset 2"@),
    )
}

/// The block carries the POSIX tar magic at offset 257.
pub open spec fn spec_is_ustar(data: Seq<u8>) -> bool {
    spec_found_at(data, 257, USTAR_MAGIC@) || spec_found_at(data, 257, USTAR_GNU_MAGIC@)
}

/// The name, mode and size fields of the block look like those of a tar
/// header of the seventh edition.
pub open spec fn spec_is_v7_tar(data: Seq<u8>) -> bool {
    &&& spec_all_in(data, 0, 100, ByteClass::NulOrGraphic)
    &&& spec_all_in(data, 100, 108, ByteClass::NulOrGraphic)
    &&& spec_all_in(data, 124, 136, ByteClass::NulOrDigit)
}

/// tar headers, in blocks of at least 512 bytes.
pub open spec fn spec_detect_tar(data: Seq<u8>) -> Seq<SignatureModel> {
    spec_when(
        data.len() >= 512 && spec_is_ustar(data),
        spec_signature("tar-ustar"@, "POSIX tar header (ustar)"@).with_format("tar archive"@).with_platform(
            "Unix/Linux"@,
        ).with_confidence("high"@),
    ) + spec_when(
        data.len() >= 512 && !spec_is_ustar(data) && spec_is_v7_tar(data),
        spec_signature("tar-legacy"@, "Tar header (V7 style)"@).with_format("tar archive"@).with_platform(
            "Unix/Linux"@,
        ).with_confidence("medium"@),
    )
}

/// The two-byte magic of a binary cpio header, in either byte order.
pub open spec fn spec_is_binary_cpio(data: Seq<u8>) -> bool {
    &&& data.len() >= 2
    &&& {
        ||| data[0] == 0x71 && data[1] == 0xc7
        ||| data[0] == 0xc7 && data[1] == 0x71
        ||| data[0] == 0xc7 && data[1] == 0x70
        ||| data[0] == 0x70 && data[1] == 0xc7
    }
}

/// cpio headers.
pub open spec fn spec_detect_cpio(data: Seq<u8>) -> Seq<SignatureModel> {
    spec_when(
        spec_found_at(data, 0, CPIO_NEWC_MAGIC@) || spec_found_at(data, 0, CPIO_CRC_MAGIC@),
        spec_signature("cpio-newc"@, "CPIO archive header (new ASCII)"@).with_format(
            "CPIO archive"@,
        ).with_platform("Unix/Linux"@).with_confidence("high"@),
    ) + spec_when(
        spec_found_at(data, 0, CPIO_ODC_MAGIC@),
        spec_signature("cpio-old"@, "CPIO archive header (old ASCII)"@).with_format(
            "CPIO archive"@,
        ).with_platform("Unix/Linux"@).with_confidence("medium"@),
    ) + spec_when(
        spec_is_binary_cpio(data),
        spec_signature("cpio-binary"@, "CPIO archive header (binary)"@).with_format(
            "CPIO archive"@,
        ).with_platform("Unix/Linux"@).with_confidence("medium"@),
    )
}

/// A rule of the PDP-11 table: the description is the format too.
pub open spec fn spec_pdp11_rule(
    data: Seq<u8>,
    magic: Seq<u8>,
    tag: Seq<char>,
    description: Seq<char>,
    confidence: Seq<char>,
) -> Seq<SignatureModel> {
    spec_when(
        spec_found_at(data, 0, magic),
        spec_signature(tag, description).with_format(description).with_platform("PDP-11"@).with_confidence(
            confidence,
        ),
    )
}

/// The a.out magic numbers of the PDP-11.
pub open spec fn spec_detect_pdp11_formats(data: Seq<u8>) -> Seq<SignatureModel> {
    spec_pdp11_rule(data, PDP11_OMAGIC@, "pdp11-omagic"@, "PDP-11 a.out executable (OMAGIC)"@, "high"@)
        + spec_pdp11_rule(
        data,
        PDP11_NMAGIC@,
        "pdp11-nmagic"@,
        "PDP-11 a.out executable (NMAGIC)"@,
        "high"@,
    ) + spec_pdp11_rule(
        data,
        PDP11_ZMAGIC@,
        "pdp11-zmagic"@,
        "PDP-11 a.out executable (ZMAGIC)"@,
        "high"@,
    ) + spec_pdp11_rule(
        data,
        PDP11_QMAGIC@,
        "pdp11-qmagic"@,
        "PDP-11 a.out executable (QMAGIC)"@,
        "high"@,
    ) + spec_pdp11_rule(data, PDP11_ARCHIVE_MAGIC@, "pdp11-archive"@, "PDP-11 archive/library"@, "medium"@)
}

/// The block names both `BACKUP`, within its first 120 bytes, and
/// `SAVE SET`, within its first 256.
pub open spec fn spec_names_save_set(data: Seq<u8>) -> bool {
    spec_contains_within(data, BACKUP_WORD@, 120) && spec_contains_within(data, SAVE_SET_WORD@, 256)
}

/// The block begins like the prologue of a BACKUP block: a one in either
/// byte order, and NULs from the fifth byte to the twelfth.
pub open spec fn spec_has_backup_prologue(data: Seq<u8>) -> bool {
    &&& data.len() >= 12
    &&& (data[0] == 1 && data[1] == 0 || data[0] == 0 && data[1] == 1)
    &&& spec_all_in(data, 4, 12, ByteClass::Nul)
}

/// VMS BACKUP save sets, in blocks of at least 512 bytes.
pub open spec fn spec_detect_vms_backup(data: Seq<u8>) -> Seq<SignatureModel> {
    spec_when(
        data.len() >= 512 && spec_names_save_set(data),
        spec_signature("vms-backup"@, "VMS BACKUP save set block"@).with_format(
            "VMS BACKUP save set"@,
        ).with_platform("OpenVMS / VAX/VMS"@).with_confidence("high"@),
    ) + spec_when(
        data.len() >= 512 && !spec_names_save_set(data) && spec_has_backup_prologue(data),
        spec_signature("vms-backup-heur"@, "Possible VMS BACKUP block"@).with_format(
            "VMS BACKUP save set"@,
        ).with_platform("OpenVMS / VAX/VMS"@).with_confidence("medium"@).with_details(
            "Matches BACKUP block prologue pattern"@,
        ),
    )
}

/// DEC BRU save sets.
pub open spec fn spec_detect_dec_bru(data: Seq<u8>) -> Seq<SignatureModel> {
    spec_when(
        data.len() >= 64 && spec_contains_within(data, BRU_WORD@, 64),
        spec_signature("dec-bru"@, "DEC BRU save set block"@).with_format("DEC BRU save set"@).with_platform(
            "RSX-11 / RSTS/E / VMS"@,
        ).with_confidence("low"@).with_details("\"BRU\" marker within first 64 bytes"@),
    )
}

/// PDP-11 BACKUP save sets.
pub open spec fn spec_detect_pdp11_backup(data: Seq<u8>) -> Seq<SignatureModel> {
    spec_when(
        data.len() >= 32 && 1 <= data[0] <= 4 && data[1] == 0,
        spec_signature("pdp11-backup"@, "PDP-11 BACKUP save set block"@).with_format(
            "PDP-11 BACKUP save set"@,
        ).with_platform("RSTS/E or RT-11"@).with_confidence("medium"@),
    )
}

/// The magic numbers of the dump formats of Unix.
pub open spec fn spec_is_dump_magic(magic: u32) -> bool {
    60011 <= magic <= 60014
}

/// Unix dump and restore tapes: the magic number stands at offset 24.
pub open spec fn spec_detect_unix_dump(data: Seq<u8>) -> Seq<SignatureModel> {
    spec_when(
        data.len() >= 28 && spec_is_dump_magic(spec_word_at(data, 24)),
        spec_signature("unix-dump"@, "Unix dump/restore tape format"@).with_format(
            "Unix dump archive"@,
        ).with_platform("Unix/BSD"@).with_confidence("high"@).with_details(
            "Dump magic number: "@ + spec_decimal(spec_word_at(data, 24) as nat),
        ),
    )
}

/// AFIO archives.
pub open spec fn spec_detect_afio(data: Seq<u8>) -> Seq<SignatureModel> {
    spec_when(
        spec_found_at(data, 0, AFIO_MAGIC@),
        spec_signature("afio"@, "AFIO archive format"@).with_format("AFIO archive"@).with_platform(
            "Unix/Linux"@,
        ).with_confidence("high"@).with_details("Tape-optimized CPIO alternative"@),
    )
}

/// Quarter-inch cartridge formats.
pub open spec fn spec_detect_qic(data: Seq<u8>) -> Seq<SignatureModel> {
    spec_when(
        spec_found_at(data, 0, QIC_MAGIC@) || spec_found_at(data, 0, QIC_SHIFTED_MAGIC@),
        spec_signature("qic"@, "QIC tape format header"@).with_format("QIC tape format"@).with_platform(
            "Quarter-Inch Cartridge"@,
        ).with_confidence("high"@),
    ) + spec_when(
        spec_found_at(data, 512, QIC_113_MAGIC@),
        spec_signature("qic-113"@, "QIC-113 format tape"@).with_format("QIC-113"@).with_confidence(
            "medium"@,
        ).with_details("Extended QIC format with file marks"@),
    )
}

/// The tape formats of Windows backup programs.
pub open spec fn spec_detect_windows_backup(data: Seq<u8>) -> Seq<SignatureModel> {
    spec_when(
        spec_found_at(data, 0, MTF_MAGIC@),
        spec_signature("mtf"@, "Microsoft Tape Format (MTF)"@).with_format(
            "Windows NT Backup"@,
        ).with_platform("Windows NT/2000/XP"@).with_confidence("high"@),
    ) + spec_when(
        spec_found_at(data, 0, BTF_MAGIC@),
        spec_signature("btf"@, "Backup Tape Format"@).with_format("Backup Tape Format"@).with_confidence(
            "medium"@,
        ),
    )
}

/// Novell SMS backups.
pub open spec fn spec_detect_novell_sms(data: Seq<u8>) -> Seq<SignatureModel> {
    spec_when(
        spec_found_at(data, 0, NOVELL_MAGIC@),
        spec_signature("novell-sms"@, "Novell SMS tape backup"@).with_format(
            "Novell SMS backup"@,
        ).with_platform("NetWare"@).with_confidence("high"@),
    )
}

/// The record is as long as a label and begins with one of the four
/// label names of IBM and a digit.
pub open spec fn spec_is_ibm_label(data: Seq<u8>) -> bool {
    &&& data.len() >= 80
    &&& {
        ||| spec_found_at(data, 0, VOL_WORD@)
        ||| spec_found_at(data, 0, HDR_WORD@)
        ||| spec_found_at(data, 0, EOF_WORD@)
        ||| spec_found_at(data, 0, EOV_WORD@)
    }
    &&& 48 <= data[3] <= 57
}

/// IBM standard labels.
pub open spec fn spec_detect_ibm_standard_labels(data: Seq<u8>) -> Seq<SignatureModel> {
    spec_when(
        spec_is_ibm_label(data),
        spec_signature(
            "ibm-sl"@,
            "IBM Standard Label format ("@ + spec_chars(data.subrange(0, 4)) + ")"@,
        ).with_format("IBM Standard Label"@).with_platform("IBM Mainframe"@).with_confidence(
            "medium"@,
        ).with_details("IBM tape label structure detected"@),
    )
}

/// The record is an XML document that names `ltfsindex`, in any case,
/// within its first 512 bytes.
pub open spec fn spec_is_ltfs_index(data: Seq<u8>) -> bool {
    spec_found_at(data, 0, XML_MAGIC@) && spec_find_within(data, LTFS_INDEX_WORD@, true, 512) is Some
}

/// The Linear Tape File System.
pub open spec fn spec_detect_ltfs(data: Seq<u8>) -> Seq<SignatureModel> {
    spec_when(
        spec_is_ltfs_index(data),
        spec_signature("ltfs"@, "LTFS (Linear Tape File System) index"@).with_format("LTFS"@).with_platform(
            "LTO Tape"@,
        ).with_confidence("high"@).with_details("ltfsindex XML present"@),
    ) + spec_when(
        !spec_is_ltfs_index(data) && spec_found_at(data, 0, LTFS_MAGIC@),
        spec_signature("ltfs-label"@, "LTFS partition label"@).with_format("LTFS"@).with_platform(
            "LTO Tape"@,
        ).with_confidence("high"@).with_details("Linear Tape File System metadata"@),
    )
}

/// The Material Exchange Format, in records of at least 16 bytes.
pub open spec fn spec_detect_mxf(data: Seq<u8>) -> Seq<SignatureModel> {
    spec_when(
        data.len() >= 16 && spec_found_at(data, 0, MXF_KEY_MAGIC@) && spec_found_at(
            data,
            4,
            MXF_PARTITION_MAGIC@,
        ),
        spec_signature("mxf"@, "MXF (Material eXchange Format) file"@).with_format("MXF"@).with_platform(
            "Professional Video/Broadcast"@,
        ).with_confidence("high"@).with_details("SMPTE partition pack"@),
    ) + spec_when(
        data.len() >= 16 && spec_found_at(data, 0, MXF_KEY_MAGIC@) && !spec_found_at(
            data,
            4,
            MXF_PARTITION_MAGIC@,
        ),
        spec_signature("mxf-klv"@, "MXF/KLV formatted data"@).with_format("MXF/KLV"@).with_platform(
            "Professional Video/Broadcast"@,
        ).with_confidence("medium"@).with_details("SMPTE KLV key"@),
    )
}

/// The hint that a block size gives, where nothing else has matched.
pub open spec fn spec_detect_block_size(nothing_yet: bool, declared_length: u32) -> Seq<SignatureModel> {
    spec_when(
        nothing_yet && (declared_length == 2048 || declared_length == 4096),
        spec_signature("rsx-block"@, "Block size matches common DEC utilities"@).with_platform(
            "DEC operating systems"@,
        ).with_confidence("low"@),
    )
}

/// The line endings of a text: those of DOS where a carriage return is
/// followed by a line feed, else those of Unix where there is a line feed,
/// else those of the classic Mac where there is a carriage return.
pub open spec fn spec_line_endings(data: Seq<u8>) -> Seq<char> {
    if spec_contains_within(data, CRLF@, data.len() as int) {
        "DOS/Windows line endings"@
    } else if data.contains(10u8) {
        "Unix line endings"@
    } else if data.contains(13u8) {
        "classic Mac line endings"@
    } else {
        "mixed line endings"@
    }
}

/// At least 32 bytes, nine in ten of them printable ASCII.
pub open spec fn spec_is_plain_text(data: Seq<u8>) -> bool {
    data.len() >= 32 && 10 * spec_count(data, ByteClass::PrintableAscii) >= 9 * data.len()
}

/// Plain text, the last resort.
pub open spec fn spec_detect_text(data: Seq<u8>) -> Seq<SignatureModel> {
    spec_when(
        spec_is_plain_text(data),
        spec_signature(
            "ascii-text"@,
            "Plain text content ("@ + spec_line_endings(data) + ")"@,
        ).with_format("Text content"@).with_confidence("low"@),
    )
}

/// What the detectors of known formats find, in the order of the battery.
pub open spec fn spec_detect_formats(data: Seq<u8>) -> Seq<SignatureModel> {
    spec_detect_magic_prefixes(data) + spec_detect_legacy_compression(data) + spec_detect_tar(data)
        + spec_detect_cpio(data) + spec_detect_pdp11_formats(data) + spec_detect_vms_backup(data)
        + spec_detect_dec_bru(data) + spec_detect_pdp11_backup(data) + spec_detect_unix_dump(data)
        + spec_detect_afio(data) + spec_detect_qic(data) + spec_detect_windows_backup(data)
        + spec_detect_novell_sms(data) + spec_detect_ibm_standard_labels(data) + spec_detect_ltfs(
        data,
    ) + spec_detect_mxf(data)
}

/// The signatures of a record: those of the known formats; where there is
/// none, the hint of the declared length; where there is still none, the
/// plain-text fallback.
pub open spec fn spec_detect(data: Seq<u8>, declared_length: u32) -> Seq<SignatureModel> {
    let formats = spec_detect_formats(data);
    let hinted = formats + spec_detect_block_size(formats.len() == 0, declared_length);
    if hinted.len() == 0 {
        spec_detect_text(data)
    } else {
        hinted
    }
}

/// Appends a signature to the list.
fn emit(signatures: &mut Vec<RecordSignature>, sig: RecordSignature)
    ensures
        final(signatures).deep_view() == old(signatures).deep_view().push(sig@),
{
    signatures.push(sig);
    assert(signatures.deep_view() =~= old(signatures).deep_view().push(sig@));
}

/// Appends a signature, with a format and a platform where they are given
/// and not empty.
fn push_signature(
    signatures: &mut Vec<RecordSignature>,
    sig: RecordSignature,
    fmt: Option<&str>,
    platform: Option<&str>,
)
    ensures
        final(signatures).deep_view() == old(signatures).deep_view().push(
            sig@.with_known(spec_str_option(fmt), spec_str_option(platform)),
        ),
{
    let mut sig = sig;
    match fmt {
        Some(fmt) => {
            if !fmt.is_empty() {
                sig = sig.with_format(fmt);
            }
        },
        None => {},
    }
    match platform {
        Some(platform) => {
            if !platform.is_empty() {
                sig = sig.with_platform(platform);
            }
        },
        None => {},
    }
    emit(signatures, sig);
}

fn is_ascii_alphanumeric(b: u8) -> (r: bool)
    ensures
        r == spec_is_ascii_alphanumeric(b),
{
    (48 <= b && b <= 57) || (65 <= b && b <= 90) || (97 <= b && b <= 122)
}

/// Runs the battery of detectors over a record.
pub struct SignatureDetector {}

impl Default for SignatureDetector {
    fn default() -> (r: Self) {
        SignatureDetector {  }
    }
}

impl SignatureDetector {
    /// The signatures of a record with the given payload and declared length.
    pub fn detect(&self, data: &[u8], declared_length: u32) -> (signatures: Vec<RecordSignature>)
        ensures
            signatures.deep_view() == spec_detect(data@, declared_length),
    {
        let mut signatures = self.detect_formats(data);
        self.detect_block_size(declared_length, &mut signatures);
        if signatures.is_empty() {
            self.detect_text(data, &mut signatures);
        }
        assert(signatures.deep_view() =~= spec_detect(data@, declared_length));
        signatures
    }

    fn detect_formats(&self, data: &[u8]) -> (signatures: Vec<RecordSignature>)
        ensures
            signatures.deep_view() == spec_detect_formats(data@),
    {
        let mut signatures: Vec<RecordSignature> = Vec::new();
        assert(signatures.deep_view() =~= Seq::<SignatureModel>::empty());
        self.detect_magic_prefixes(data, &mut signatures);
        assert(signatures.deep_view() =~= spec_detect_magic_prefixes(data@));
        self.detect_legacy_compression(data, &mut signatures);
        self.detect_tar(data, &mut signatures);
        self.detect_cpio(data, &mut signatures);
        self.detect_pdp11_formats(data, &mut signatures);
        self.detect_vms_backup(data, &mut signatures);
        self.detect_dec_bru(data, &mut signatures);
        self.detect_pdp11_backup(data, &mut signatures);
        self.detect_unix_dump(data, &mut signatures);
        self.detect_afio(data, &mut signatures);
        self.detect_qic(data, &mut signatures);
        self.detect_windows_backup(data, &mut signatures);
        self.detect_novell_sms(data, &mut signatures);
        self.detect_ibm_standard_labels(data, &mut signatures);
        self.detect_ltfs(data, &mut signatures);
        self.detect_mxf(data, &mut signatures);
        signatures
    }

    fn match_prefix(
        &self,
        data: &[u8],
        signatures: &mut Vec<RecordSignature>,
        magic: &[u8],
        tag: &str,
        description: &str,
        fmt: Option<&str>,
        platform: Option<&str>,
        confidence: &str,
    )
        ensures
            final(signatures).deep_view() == old(signatures).deep_view() + spec_prefix_rule(
                data@,
                magic@,
                tag@,
                description@,
                spec_str_option(fmt),
                spec_str_option(platform),
                confidence@,
            ),
    {
        if found_at(data, 0, magic) {
            let sig = RecordSignature::new(tag, description).with_confidence(confidence);
            push_signature(signatures, sig, fmt, platform);
        }
        assert(signatures.deep_view() =~= old(signatures).deep_view() + spec_prefix_rule(
            data@,
            magic@,
            tag@,
            description@,
            spec_str_option(fmt),
            spec_str_option(platform),
            confidence@,
        ));
    }

    fn detect_magic_prefixes(&self, data: &[u8], signatures: &mut Vec<RecordSignature>)
        ensures
            final(signatures).deep_view() == old(signatures).deep_view() + spec_detect_magic_prefixes(data@),
    {
        self.match_prefix(
            data,
            signatures,
            &GZIP_MAGIC,
            "gzip",
            "GZIP compressed file",
            Some("GZIP"),
            Some("Unix/Linux"),
            "high",
        );
        self.match_prefix(
            data,
            signatures,
            &BZIP2_MAGIC,
            "bzip2",
            "BZIP2 compressed file",
            Some("BZIP2"),
            Some("Unix/Linux"),
            "high",
        );
        self.match_prefix(
            data,
            signatures,
            &AR_MAGIC,
            "ar",
            "Unix ar archive",
            Some("ar archive"),
            Some("Unix/Linux"),
            "high",
        );
        self.match_prefix(
            data,
            signatures,
            &ZIP_MAGIC,
            "zip",
            "ZIP archive",
            Some("ZIP"),
            None,
            "high",
        );
        self.match_prefix(
            data,
            signatures,
            &RAR_MAGIC,
            "rar",
            "RAR archive",
            Some("RAR"),
            None,
            "high",
        );
        self.match_prefix(
            data,
            signatures,
            &SEVEN_ZIP_MAGIC,
            "7zip",
            "7-Zip archive",
            Some("7-Zip"),
            None,
            "high",
        );
        self.match_prefix(
            data,
            signatures,
            &ELF_MAGIC,
            "elf",
            "ELF executable",
            Some("ELF"),
            Some("Unix/Linux"),
            "high",
        );
        self.match_prefix(
            data,
            signatures,
            &PNG_MAGIC,
            "png",
            "PNG image",
            Some("PNG"),
            None,
            "high",
        );
        self.match_prefix(
            data,
            signatures,
            &GIF87_MAGIC,
            "gif87",
            "GIF image (87a)",
            Some("GIF"),
            None,
            "high",
        );
        self.match_prefix(
            data,
            signatures,
            &GIF89_MAGIC,
            "gif89",
            "GIF image (89a)",
            Some("GIF"),
            None,
            "high",
        );
        self.match_prefix(
            data,
            signatures,
            &JPEG_MAGIC,
            "jpeg",
            "JPEG image",
            Some("JPEG"),
            None,
            "high",
        );
        self.match_prefix(
            data,
            signatures,
            &BMP_MAGIC,
            "bmp",
            "Bitmap image",
            Some("BMP"),
            None,
            "high",
        );
        self.match_prefix(
            data,
            signatures,
            &PDF_MAGIC,
            "pdf",
            "PDF document",
            Some("PDF"),
            None,
            "high",
        );
        self.match_prefix(
            data,
            signatures,
            &DOCTYPE_MAGIC,
            "doctype",
            "HTML/XML document",
            Some("HTML"),
            None,
            "medium",
        );
        self.match_prefix(
            data,
            signatures,
            &HTML_MAGIC,
            "html",
            "HTML document",
            Some("HTML"),
            None,
            "medium",
        );
        self.match_prefix(
            data,
            signatures,
            &XML_MAGIC,
            "xml",
            "XML document",
            Some("XML"),
            None,
            "medium",
        );
        self.match_prefix(
            data,
            signatures,
            &SHEBANG_MAGIC,
            "shebang",
            "Script with shebang",
            Some("Script"),
            None,
            "medium",
        );
        assert(signatures.deep_view() =~= old(signatures).deep_view() + spec_detect_magic_prefixes(data@));
    }

    fn detect_legacy_compression(&self, data: &[u8], signatures: &mut Vec<RecordSignature>)
        ensures
            final(signatures).deep_view() == old(signatures).deep_view() + spec_detect_legacy_compression(
                data@,
            ),
    {
        if data.len() >= 2 {
            let first: u8 = data[0];
            let second: u8 = data[1];
            if first == 0x1f && (second == 0x9d || second == 0xa0) {
                emit(
                    signatures,
                    RecordSignature::new("compress-z", "Unix compress (.Z) file").with_format(
                        "compress (.Z)",
                    ).with_platform("Unix/System V").with_confidence("high"),
                );
            }
            if first == 0x1a && 1 <= second && second <= 8 {
                emit(
                    signatures,
                    RecordSignature::new("arc", "ARC/PKPAK archive header").with_format(
                        "ARC archive",
                    ).with_platform("MS-DOS / CP/M").with_confidence("medium"),
                );
            }
            if first == 0x60 && second == 0xea {
                emit(
                    signatures,
                    RecordSignature::new("arj", "ARJ archive header").with_format(
                        "ARJ archive",
                    ).with_platform("MS-DOS / OS/2").with_confidence("high"),
                );
            }
        }
        if found_at(data, 0, &ZOO_MAGIC) {
            emit(
                signatures,
                RecordSignature::new("zoo", "ZOO archive header").with_format("ZOO archive").with_platform(
                    "MS-DOS",
                ).with_confidence("medium"),
            );
        } else if found_at(data, 0, &STUFFIT_MAGIC) {
            emit(
                signatures,
                RecordSignature::new("stuffit", "StuffIt archive").with_format(
                    "StuffIt archive",
                ).with_platform("Classic Mac OS").with_confidence("high"),
            );
        } else if found_at(data, 0, &CABINET_MAGIC) {
            emit(
                signatures,
                RecordSignature::new("cab", "Microsoft Cabinet (CAB) file").with_format(
                    "Microsoft Cabinet (CAB)",
                ).with_platform("Windows 3.x/95/NT").with_confidence("high"),
            );
        } else if found_at(data, 0, &SZDD_MAGIC) {
            emit(
                signatures,
                RecordSignature::new("szdd", "Microsoft Compress (SZDD) file").with_format(
                    "Microsoft Compress (.??_)",
                ).with_platform("MS-DOS / Windows").with_confidence("medium").with_details(
                    "Can be expanded with the 'expand' utility",
                ),
            );
        }
        proof {
            lemma_four_byte_magics_differ(data@);
        }
        if data.len() >= 7 && data[2] == 0x2d && data[3] == 0x6c && (data[4] == 0x68 || data[4]
            == 0x7a) && is_ascii_alphanumeric(data[5]) && data[6] == 0x2d {
            emit(
                signatures,
                RecordSignature::new("lha", "LHA/LZH archive header").with_format(
                    "LHA/LZH archive",
                ).with_platform("MS-DOS / Amiga").with_confidence("medium").with_details(
                    "Header marker '-lh?-' starts at offset 2",
                ),
            );
        }
        assert(signatures.deep_view() =~= old(signatures).deep_view() + spec_detect_legacy_compression(
            data@,
        ));
    }

    fn detect_tar(&self, data: &[u8], signatures: &mut Vec<RecordSignature>)
        ensures
            final(signatures).deep_view() == old(signatures).deep_view() + spec_detect_tar(data@),
    {
        if data.len() < 512 {
            assert(signatures.deep_view() =~= old(signatures).deep_view() + spec_detect_tar(data@));
            return ;
        }
        if found_at(data, 257, &USTAR_MAGIC) || found_at(data, 257, &USTAR_GNU_MAGIC) {
            emit(
                signatures,
                RecordSignature::new("tar-ustar", "POSIX tar header (ustar)").with_format(
                    "tar archive",
                ).with_platform("Unix/Linux").with_confidence("high"),
            );
        } else if all_in_class(data, 0, 100, ByteClass::NulOrGraphic) && all_in_class(
            data,
            100,
            108,
            ByteClass::NulOrGraphic,
        ) && all_in_class(data, 124, 136, ByteClass::NulOrDigit) {
            emit(
                signatures,
                RecordSignature::new("tar-legacy", "Tar header (V7 style)").with_format(
                    "tar archive",
                ).with_platform("Unix/Linux").with_confidence("medium"),
            );
        }
        assert(signatures.deep_view() =~= old(signatures).deep_view() + spec_detect_tar(data@));
    }

    fn detect_cpio(&self, data: &[u8], signatures: &mut Vec<RecordSignature>)
        ensures
            final(signatures).deep_view() == old(signatures).deep_view() + spec_detect_cpio(data@),
    {
        if found_at(data, 0, &CPIO_NEWC_MAGIC) || found_at(data, 0, &CPIO_CRC_MAGIC) {
            emit(
                signatures,
                RecordSignature::new("cpio-newc", "CPIO archive header (new ASCII)").with_format(
                    "CPIO archive",
                ).with_platform("Unix/Linux").with_confidence("high"),
            );
        } else if found_at(data, 0, &CPIO_ODC_MAGIC) {
            emit(
                signatures,
                RecordSignature::new("cpio-old", "CPIO archive header (old ASCII)").with_format(
                    "CPIO archive",
                ).with_platform("Unix/Linux").with_confidence("medium"),
            );
        }
        proof {
            lemma_cpio_magics_differ(data@);
        }
        if data.len() >= 2 {
            let first: u8 = data[0];
            let second: u8 = data[1];
            if (first == 0x71 && second == 0xc7) || (first == 0xc7 && second == 0x71) || (first
                == 0xc7 && second == 0x70) || (first == 0x70 && second == 0xc7) {
                emit(
                    signatures,
                    RecordSignature::new("cpio-binary", "CPIO archive header (binary)").with_format(
                        "CPIO archive",
                    ).with_platform("Unix/Linux").with_confidence("medium"),
                );
            }
        }
        assert(signatures.deep_view() =~= old(signatures).deep_view() + spec_detect_cpio(data@));
    }

    fn match_pdp11(
        &self,
        data: &[u8],
        signatures: &mut Vec<RecordSignature>,
        magic: &[u8],
        tag: &str,
        description: &str,
        confidence: &str,
    )
        ensures
            final(signatures).deep_view() == old(signatures).deep_view() + spec_pdp11_rule(
                data@,
                magic@,
                tag@,
                description@,
                confidence@,
            ),
    {
        if found_at(data, 0, magic) {
            emit(
                signatures,
                RecordSignature::new(tag, description).with_format(description).with_platform(
                    "PDP-11",
                ).with_confidence(confidence),
            );
        }
        assert(signatures.deep_view() =~= old(signatures).deep_view() + spec_pdp11_rule(
            data@,
            magic@,
            tag@,
            description@,
            confidence@,
        ));
    }

    fn detect_pdp11_formats(&self, data: &[u8], signatures: &mut Vec<RecordSignature>)
        ensures
            final(signatures).deep_view() == old(signatures).deep_view() + spec_detect_pdp11_formats(data@),
    {
        self.match_pdp11(
            data,
            signatures,
            &PDP11_OMAGIC,
            "pdp11-omagic",
            "PDP-11 a.out executable (OMAGIC)",
            "high",
        );
        self.match_pdp11(
            data,
            signatures,
            &PDP11_NMAGIC,
            "pdp11-nmagic",
            "PDP-11 a.out executable (NMAGIC)",
            "high",
        );
        self.match_pdp11(
            data,
            signatures,
            &PDP11_ZMAGIC,
            "pdp11-zmagic",
            "PDP-11 a.out executable (ZMAGIC)",
            "high",
        );
        self.match_pdp11(
            data,
            signatures,
            &PDP11_QMAGIC,
            "pdp11-qmagic",
            "PDP-11 a.out executable (QMAGIC)",
            "high",
        );
        self.match_pdp11(
            data,
            signatures,
            &PDP11_ARCHIVE_MAGIC,
            "pdp11-archive",
            "PDP-11 archive/library",
            "medium",
        );
        assert(signatures.deep_view() =~= old(signatures).deep_view() + spec_detect_pdp11_formats(data@));
    }

    fn detect_vms_backup(&self, data: &[u8], signatures: &mut Vec<RecordSignature>)
        ensures
            final(signatures).deep_view() == old(signatures).deep_view() + spec_detect_vms_backup(data@),
    {
        if data.len() < 512 {
            assert(signatures.deep_view() =~= old(signatures).deep_view() + spec_detect_vms_backup(data@));
            return ;
        }
        if contains_within(data, &BACKUP_WORD, 120) && contains_within(data, &SAVE_SET_WORD, 256) {
            emit(
                signatures,
                RecordSignature::new("vms-backup", "VMS BACKUP save set block").with_format(
                    "VMS BACKUP save set",
                ).with_platform("OpenVMS / VAX/VMS").with_confidence("high"),
            );
            assert(signatures.deep_view() =~= old(signatures).deep_view() + spec_detect_vms_backup(data@));
            return ;
        }
        if ((data[0] == 1 && data[1] == 0) || (data[0] == 0 && data[1] == 1)) && all_in_class(
            data,
            4,
            12,
            ByteClass::Nul,
        ) {
            emit(
                signatures,
                RecordSignature::new("vms-backup-heur", "Possible VMS BACKUP block").with_format(
                    "VMS BACKUP save set",
                ).with_platform("OpenVMS / VAX/VMS").with_confidence("medium").with_details(
                    "Matches BACKUP block prologue pattern",
                ),
            );
        }
        assert(signatures.deep_view() =~= old(signatures).deep_view() + spec_detect_vms_backup(data@));
    }

    fn detect_dec_bru(&self, data: &[u8], signatures: &mut Vec<RecordSignature>)
        ensures
            final(signatures).deep_view() == old(signatures).deep_view() + spec_detect_dec_bru(data@),
    {
        if data.len() >= 64 && contains_within(data, &BRU_WORD, 64) {
            emit(
                signatures,
                RecordSignature::new("dec-bru", "DEC BRU save set block").with_format(
                    "DEC BRU save set",
                ).with_platform("RSX-11 / RSTS/E / VMS").with_confidence("low").with_details(
                    "\"BRU\" marker within first 64 bytes",
                ),
            );
        }
        assert(signatures.deep_view() =~= old(signatures).deep_view() + spec_detect_dec_bru(data@));
    }

    fn detect_pdp11_backup(&self, data: &[u8], signatures: &mut Vec<RecordSignature>)
        ensures
            final(signatures).deep_view() == old(signatures).deep_view() + spec_detect_pdp11_backup(data@),
    {
        if data.len() >= 32 && 1 <= data[0] && data[0] <= 4 && data[1] == 0 {
            emit(
                signatures,
                RecordSignature::new("pdp11-backup", "PDP-11 BACKUP save set block").with_format(
                    "PDP-11 BACKUP save set",
                ).with_platform("RSTS/E or RT-11").with_confidence("medium"),
            );
        }
        assert(signatures.deep_view() =~= old(signatures).deep_view() + spec_detect_pdp11_backup(data@));
    }

    fn detect_unix_dump(&self, data: &[u8], signatures: &mut Vec<RecordSignature>)
        ensures
            final(signatures).deep_view() == old(signatures).deep_view() + spec_detect_unix_dump(data@),
    {
        if data.len() < 28 {
            assert(signatures.deep_view() =~= old(signatures).deep_view() + spec_detect_unix_dump(data@));
            return ;
        }
        let magic: u32 = word_at(data, 24);
        if 60011 <= magic && magic <= 60014 {
            let mut details = String::from_str("Dump magic number: ");
            details.append(decimal(magic as u128).as_str());
            emit(
                signatures,
                RecordSignature::new("unix-dump", "Unix dump/restore tape format").with_format(
                    "Unix dump archive",
                ).with_platform("Unix/BSD").with_confidence("high").with_details(details.as_str()),
            );
        }
        assert(signatures.deep_view() =~= old(signatures).deep_view() + spec_detect_unix_dump(data@));
    }

    fn detect_afio(&self, data: &[u8], signatures: &mut Vec<RecordSignature>)
        ensures
            final(signatures).deep_view() == old(signatures).deep_view() + spec_detect_afio(data@),
    {
        if found_at(data, 0, &AFIO_MAGIC) {
            emit(
                signatures,
                RecordSignature::new("afio", "AFIO archive format").with_format(
                    "AFIO archive",
                ).with_platform("Unix/Linux").with_confidence("high").with_details(
                    "Tape-optimized CPIO alternative",
                ),
            );
        }
        assert(signatures.deep_view() =~= old(signatures).deep_view() + spec_detect_afio(data@));
    }

    fn detect_qic(&self, data: &[u8], signatures: &mut Vec<RecordSignature>)
        ensures
            final(signatures).deep_view() == old(signatures).deep_view() + spec_detect_qic(data@),
    {
        if found_at(data, 0, &QIC_MAGIC) || found_at(data, 0, &QIC_SHIFTED_MAGIC) {
            emit(
                signatures,
                RecordSignature::new("qic", "QIC tape format header").with_format(
                    "QIC tape format",
                ).with_platform("Quarter-Inch Cartridge").with_confidence("high"),
            );
        }
        if found_at(data, 512, &QIC_113_MAGIC) {
            emit(
                signatures,
                RecordSignature::new("qic-113", "QIC-113 format tape").with_format(
                    "QIC-113",
                ).with_confidence("medium").with_details("Extended QIC format with file marks"),
            );
        }
        assert(signatures.deep_view() =~= old(signatures).deep_view() + spec_detect_qic(data@));
    }

    fn detect_windows_backup(&self, data: &[u8], signatures: &mut Vec<RecordSignature>)
        ensures
            final(signatures).deep_view() == old(signatures).deep_view() + spec_detect_windows_backup(data@),
    {
        if found_at(data, 0, &MTF_MAGIC) {
            emit(
                signatures,
                RecordSignature::new("mtf", "Microsoft Tape Format (MTF)").with_format(
                    "Windows NT Backup",
                ).with_platform("Windows NT/2000/XP").with_confidence("high"),
            );
        } else if found_at(data, 0, &BTF_MAGIC) {
            emit(
                signatures,
                RecordSignature::new("btf", "Backup Tape Format").with_format(
                    "Backup Tape Format",
                ).with_confidence("medium"),
            );
        }
        proof {
            lemma_tape_magics_differ(data@);
        }
        assert(signatures.deep_view() =~= old(signatures).deep_view() + spec_detect_windows_backup(data@));
    }

    fn detect_novell_sms(&self, data: &[u8], signatures: &mut Vec<RecordSignature>)
        ensures
            final(signatures).deep_view() == old(signatures).deep_view() + spec_detect_novell_sms(data@),
    {
        if found_at(data, 0, &NOVELL_MAGIC) {
            emit(
                signatures,
                RecordSignature::new("novell-sms", "Novell SMS tape backup").with_format(
                    "Novell SMS backup",
                ).with_platform("NetWare").with_confidence("high"),
            );
        }
        assert(signatures.deep_view() =~= old(signatures).deep_view() + spec_detect_novell_sms(data@));
    }

    fn detect_ibm_standard_labels(&self, data: &[u8], signatures: &mut Vec<RecordSignature>)
        ensures
            final(signatures).deep_view() == old(signatures).deep_view() + spec_detect_ibm_standard_labels(
                data@,
            ),
    {
        if data.len() < 80 {
            assert(signatures.deep_view() =~= old(signatures).deep_view()
                + spec_detect_ibm_standard_labels(data@));
            return ;
        }
        let digit: u8 = data[3];
        if (found_at(data, 0, &VOL_WORD) || found_at(data, 0, &HDR_WORD) || found_at(data, 0, &EOF_WORD)
            || found_at(data, 0, &EOV_WORD)) && 48 <= digit && digit <= 57 {
            let mut description = String::from_str("IBM Standard Label format (");
            description.append(chars_string(vstd::slice::slice_subrange(data, 0, 4)).as_str());
            description.append(")");
            emit(
                signatures,
                RecordSignature::new("ibm-sl", description.as_str()).with_format(
                    "IBM Standard Label",
                ).with_platform("IBM Mainframe").with_confidence("medium").with_details(
                    "IBM tape label structure detected",
                ),
            );
        }
        assert(signatures.deep_view() =~= old(signatures).deep_view() + spec_detect_ibm_standard_labels(
            data@,
        ));
    }

    fn detect_ltfs(&self, data: &[u8], signatures: &mut Vec<RecordSignature>)
        ensures
            final(signatures).deep_view() == old(signatures).deep_view() + spec_detect_ltfs(data@),
    {
        if found_at(data, 0, &XML_MAGIC) {
            if find_within(data, &LTFS_INDEX_WORD, true, 512).is_some() {
                emit(
                    signatures,
                    RecordSignature::new("ltfs", "LTFS (Linear Tape File System) index").with_format(
                        "LTFS",
                    ).with_platform("LTO Tape").with_confidence("high").with_details(
                        "ltfsindex XML present",
                    ),
                );
                assert(signatures.deep_view() =~= old(signatures).deep_view() + spec_detect_ltfs(data@));
                return ;
            }
        }
        if found_at(data, 0, &LTFS_MAGIC) {
            emit(
                signatures,
                RecordSignature::new("ltfs-label", "LTFS partition label").with_format(
                    "LTFS",
                ).with_platform("LTO Tape").with_confidence("high").with_details(
                    "Linear Tape File System metadata",
                ),
            );
        }
        assert(signatures.deep_view() =~= old(signatures).deep_view() + spec_detect_ltfs(data@));
    }

    fn detect_mxf(&self, data: &[u8], signatures: &mut Vec<RecordSignature>)
        ensures
            final(signatures).deep_view() == old(signatures).deep_view() + spec_detect_mxf(data@),
    {
        if data.len() < 16 {
            assert(signatures.deep_view() =~= old(signatures).deep_view() + spec_detect_mxf(data@));
            return ;
        }
        if found_at(data, 0, &MXF_KEY_MAGIC) {
            if found_at(data, 4, &MXF_PARTITION_MAGIC) {
                emit(
                    signatures,
                    RecordSignature::new("mxf", "MXF (Material eXchange Format) file").with_format(
                        "MXF",
                    ).with_platform("Professional Video/Broadcast").with_confidence(
                        "high",
                    ).with_details("SMPTE partition pack"),
                );
            } else {
                emit(
                    signatures,
                    RecordSignature::new("mxf-klv", "MXF/KLV formatted data").with_format(
                        "MXF/KLV",
                    ).with_platform("Professional Video/Broadcast").with_confidence(
                        "medium",
                    ).with_details("SMPTE KLV key"),
                );
            }
        }
        assert(signatures.deep_view() =~= old(signatures).deep_view() + spec_detect_mxf(data@));
    }

    fn detect_block_size(&self, declared_length: u32, signatures: &mut Vec<RecordSignature>)
        ensures
            final(signatures).deep_view() == old(signatures).deep_view() + spec_detect_block_size(
                old(signatures)@.len() == 0,
                declared_length,
            ),
    {
        if signatures.is_empty() && (declared_length == 2048 || declared_length == 4096) {
            emit(
                signatures,
                RecordSignature::new("rsx-block", "Block size matches common DEC utilities").with_platform(
                    "DEC operating systems",
                ).with_confidence("low"),
            );
        }
        assert(signatures.deep_view() =~= old(signatures).deep_view() + spec_detect_block_size(
            old(signatures)@.len() == 0,
            declared_length,
        ));
    }

    fn detect_text(&self, data: &[u8], signatures: &mut Vec<RecordSignature>)
        ensures
            final(signatures).deep_view() == old(signatures).deep_view() + spec_detect_text(data@),
    {
        if data.len() < 32 {
            assert(signatures.deep_view() =~= old(signatures).deep_view() + spec_detect_text(data@));
            return ;
        }
        let printable: usize = count_in_class(data, ByteClass::PrintableAscii);
        if 10 * (printable as u128) >= 9 * (data.len() as u128) {
            let detail = if contains_within(data, &CRLF, data.len()) {
                "DOS/Windows line endings"
            } else if contains_byte(data, 10) {
                "Unix line endings"
            } else if contains_byte(data, 13) {
                "classic Mac line endings"
            } else {
                "mixed line endings"
            };
            let mut description = String::from_str("Plain text content (");
            description.append(detail);
            description.append(")");
            emit(
                signatures,
                RecordSignature::new("ascii-text", description.as_str()).with_format(
                    "Text content",
                ).with_confidence("low"),
            );
        }
        assert(signatures.deep_view() =~= old(signatures).deep_view() + spec_detect_text(data@));
    }
}

/// The hint of the block size and the plain-text fallback stand alone:
/// where a known format is found, the signatures are those of the known
/// formats and no more; where none is found, a declared length of 2048 or
/// 4096 gives the hint and nothing else; only then is plain text looked for.
pub proof fn lemma_detector_precedence(data: Seq<u8>, declared_length: u32)
    ensures
        spec_detect_formats(data).len() > 0 ==> spec_detect(data, declared_length) == spec_detect_formats(
            data,
        ),
        spec_detect_formats(data).len() == 0 && (declared_length == 2048 || declared_length == 4096)
            ==> spec_detect(data, declared_length) == spec_detect_block_size(true, declared_length)
            && spec_detect(data, declared_length).len() == 1 && spec_detect(data, declared_length)[0].tag
            == "rsx-block"@,
        spec_detect_formats(data).len() == 0 && declared_length != 2048 && declared_length != 4096
            ==> spec_detect(data, declared_length) == spec_detect_text(data),
        spec_found_at(data, 0, GZIP_MAGIC@) ==> spec_detect(data, declared_length).len() > 0 && spec_detect(
            data,
            declared_length,
        )[0].tag == "gzip"@,
{
    let formats = spec_detect_formats(data);
    let hint = spec_detect_block_size(formats.len() == 0, declared_length);
    assert(formats + hint =~= if formats.len() == 0 {
        hint
    } else {
        formats
    });
    if spec_found_at(data, 0, GZIP_MAGIC@) {
        let prefixes = spec_detect_magic_prefixes(data);
        assert(prefixes.len() > 0 && prefixes[0].tag == "gzip"@);
        assert(formats.len() > 0 && formats[0] == prefixes[0]);
    }
}

/// No record begins with two of the four-byte magics of the old archivers.
proof fn lemma_four_byte_magics_differ(data: Seq<u8>)
    ensures
        spec_found_at(data, 0, ZOO_MAGIC@) ==> !spec_found_at(data, 0, STUFFIT_MAGIC@) && !spec_found_at(
            data,
            0,
            CABINET_MAGIC@,
        ) && !spec_found_at(data, 0, SZDD_MAGIC@),
        spec_found_at(data, 0, STUFFIT_MAGIC@) ==> !spec_found_at(data, 0, CABINET_MAGIC@)
            && !spec_found_at(data, 0, SZDD_MAGIC@),
        spec_found_at(data, 0, CABINET_MAGIC@) ==> !spec_found_at(data, 0, SZDD_MAGIC@),
{
    if data.len() >= 4 {
        let head = data.subrange(0, 4);
        assert(ZOO_MAGIC@[0] != STUFFIT_MAGIC@[0]);
        assert(ZOO_MAGIC@[0] != CABINET_MAGIC@[0]);
        assert(ZOO_MAGIC@[0] != SZDD_MAGIC@[0]);
        assert(STUFFIT_MAGIC@[1] != CABINET_MAGIC@[1]);
        assert(STUFFIT_MAGIC@[1] != SZDD_MAGIC@[1]);
        assert(CABINET_MAGIC@[0] != SZDD_MAGIC@[0]);
    }
}

/// No record begins with two of the ASCII magics of cpio.
proof fn lemma_cpio_magics_differ(data: Seq<u8>)
    ensures
        spec_found_at(data, 0, CPIO_ODC_MAGIC@) ==> !spec_found_at(data, 0, CPIO_NEWC_MAGIC@)
            && !spec_found_at(data, 0, CPIO_CRC_MAGIC@),
{
    assert(CPIO_ODC_MAGIC@[5] != CPIO_NEWC_MAGIC@[5]);
    assert(CPIO_ODC_MAGIC@[5] != CPIO_CRC_MAGIC@[5]);
}

/// No record begins with the magics of both Windows tape formats.
proof fn lemma_tape_magics_differ(data: Seq<u8>)
    ensures
        spec_found_at(data, 0, MTF_MAGIC@) ==> !spec_found_at(data, 0, BTF_MAGIC@),
{
    assert(MTF_MAGIC@[0] != BTF_MAGIC@[0]);
}

} // verus!
