//! The sections of a firmware image that the debugger works with.

use vstd::prelude::*;
use std::ops::Range;

verus! {

/// One section as the reader of the image file found it.
#[derive(Debug, Clone)]
pub struct RawSection {
    pub name: String,
    /// Link address of the section.
    pub address: u64,
    /// Offset of the section in the file.
    pub offset: u64,
    /// Length of the section.
    pub size: u64,
    pub data: Vec<u8>,
}

/// The sections that a firmware image must have.
#[derive(Debug, Copy, Clone, PartialEq, Eq, Structural)]
pub enum SectionKind {
    VectorTable,
    Text,
    Bss,
    Data,
    Rodata,
}

impl SectionKind {
    /// The name of the section in the image.
    pub open spec fn spec_name(self) -> Seq<char> {
        match self {
            SectionKind::VectorTable => ".vector_table"@,
            SectionKind::Text => ".text"@,
            SectionKind::Bss => ".bss"@,
            SectionKind::Data => ".data"@,
            SectionKind::Rodata => ".rodata"@,
        }
    }

    /// The name of the section in the image.
    pub fn name(self) -> (name: String)
        ensures
            name@ == self.spec_name(),
    {
        match self {
            SectionKind::VectorTable => ".vector_table".to_owned(),
            SectionKind::Text => ".text".to_owned(),
            SectionKind::Bss => ".bss".to_owned(),
            SectionKind::Data => ".data".to_owned(),
            SectionKind::Rodata => ".rodata".to_owned(),
        }
    }
}

/// Why an image was not taken.
#[derive(Debug, Copy, Clone, PartialEq, Eq, Structural)]
pub enum ElfError {
    /// The image has no section of this kind.
    MissingSection(SectionKind),
    /// The section of this kind ends beyond what an offset can hold.
    SectionOutOfRange(SectionKind),
    /// No identifier is left for another image.
    TooManyImages,
}

/// Where a section lies in the file and in the target, and what it holds.
#[derive(Debug, PartialEq, Eq)]
pub struct SectionInfo {
    /// The bytes of the file that the section takes.
    pub range: Range<usize>,
    pub data: Vec<u8>,
    /// Link address of the section.
    pub address: usize,
}

/// Mathematical model of a `SectionInfo`.
pub struct SectionInfoView {
    pub start: usize,
    pub end: usize,
    pub data: Seq<u8>,
    pub address: usize,
}

impl View for SectionInfo {
    type V = SectionInfoView;

    open spec fn view(&self) -> SectionInfoView {
        SectionInfoView {
            start: self.range.start,
            end: self.range.end,
            data: self.data@,
            address: self.address,
        }
    }
}

impl SectionInfo {
    /// An empty section at offset and address zero.
    pub open spec fn spec_default() -> SectionInfoView {
        SectionInfoView { start: 0, end: 0, data: Seq::empty(), address: 0 }
    }
}

impl Clone for SectionInfo {
    fn clone(&self) -> (copy: Self)
        ensures
            copy@ == self@,
    {
        let mut data: Vec<u8> = Vec::new();
        data.extend_from_slice(self.data.as_slice());
        assert(data@ =~= self.data@);
        Self { range: self.range.start..self.range.end, data, address: self.address }
    }
}

impl Default for SectionInfo {
    fn default() -> (section: Self)
        ensures
            section@ == SectionInfo::spec_default(),
    {
        Self { range: 0..0, data: Vec::new(), address: 0 }
    }
}

/// A firmware image that was loaded, under a name that the user may
/// change.
#[derive(Debug, Clone)]
pub struct ElfFile {
    id: usize,
    name: String,
    path: String,
    pub vector: SectionInfo,
    pub text: SectionInfo,
    pub rodata: SectionInfo,
    pub bss: SectionInfo,
    pub data: SectionInfo,
}

/// Mathematical model of an `ElfFile`.
pub struct ElfFileView {
    pub id: usize,
    pub name: Seq<char>,
    /// The path of the file that the image came from.
    pub path: Seq<char>,
    pub vector: SectionInfoView,
    pub text: SectionInfoView,
    pub rodata: SectionInfoView,
    pub bss: SectionInfoView,
    pub data: SectionInfoView,
}

impl View for ElfFile {
    type V = ElfFileView;

    closed spec fn view(&self) -> ElfFileView {
        ElfFileView {
            id: self.id,
            name: self.name@,
            path: self.path@,
            vector: self.vector@,
            text: self.text@,
            rodata: self.rodata@,
            bss: self.bss@,
            data: self.data@,
        }
    }
}

/// The place of the first section of `sections` that is named as `kind`
/// is, if there is one.
pub open spec fn first_named(sections: Seq<RawSection>, kind: SectionKind, i: int) -> bool {
    &&& 0 <= i < sections.len()
    &&& sections[i].name@ == kind.spec_name()
    &&& forall|j: int| 0 <= j < i ==> (#[trigger] sections[j]).name@ != kind.spec_name()
}

/// Whether `sections` has a section that is named as `kind` is.
pub open spec fn has_section(sections: Seq<RawSection>, kind: SectionKind) -> bool {
    exists|i: int| first_named(sections, kind, i)
}

/// The first section of `sections` that is named as `kind` is.
pub open spec fn section_of(sections: Seq<RawSection>, kind: SectionKind) -> RawSection {
    sections[choose|i: int| first_named(sections, kind, i)]
}

/// Whether a section ends within the range of a 64-bit offset.
pub open spec fn in_range(raw: RawSection) -> bool {
    raw.offset + raw.size <= u64::MAX
}

/// What is kept of a section of the image.
pub open spec fn kept(raw: RawSection) -> SectionInfoView {
    SectionInfoView {
        start: raw.offset as usize,
        end: (raw.offset + raw.size) as u64 as usize,
        data: raw.data@,
        address: raw.address as usize,
    }
}

/// The kinds of section in the order in which an image is searched for
/// them.
pub open spec fn search_order() -> Seq<SectionKind> {
    seq![
        SectionKind::VectorTable,
        SectionKind::Text,
        SectionKind::Bss,
        SectionKind::Data,
        SectionKind::Rodata,
    ]
}

/// Whether the section of kind number `k` is there and in range.
pub open spec fn usable(sections: Seq<RawSection>, k: int) -> bool {
    has_section(sections, search_order()[k]) && in_range(section_of(sections, search_order()[k]))
}

/// The error of the first kind of section that is missing or out of range,
/// from kind number `k` on; none if all are usable.
pub open spec fn first_fault(sections: Seq<RawSection>, k: int) -> Option<ElfError>
    decreases 5 - k,
{
    if k < 0 || k >= 5 {
        None
    } else if !has_section(sections, search_order()[k]) {
        Some(ElfError::MissingSection(search_order()[k]))
    } else if !in_range(section_of(sections, search_order()[k])) {
        Some(ElfError::SectionOutOfRange(search_order()[k]))
    } else {
        first_fault(sections, k + 1)
    }
}

fn find(sections: &Vec<RawSection>, kind: SectionKind) -> (found: Option<usize>)
    ensures
        match found {
            Some(i) => first_named(sections@, kind, i as int),
            None => !has_section(sections@, kind),
        },
{
    let wanted = kind.name();
    let mut i: usize = 0;
    while i < sections.len()
        invariant
            wanted@ == kind.spec_name(),
            forall|j: int|
                0 <= j < i && j < sections@.len() ==> (#[trigger] sections@[j]).name@
                    != kind.spec_name(),
        decreases sections@.len() - i,
    {
        if sections[i].name == wanted {
            return Some(i);
        }
        i += 1;
    }
    None
}

proof fn lemma_first_named_unique(sections: Seq<RawSection>, kind: SectionKind, i: int, j: int)
    requires
        first_named(sections, kind, i),
        first_named(sections, kind, j),
    ensures
        i == j,
{
    if i < j {
        assert(sections[i].name@ != kind.spec_name());
    } else if j < i {
        assert(sections[j].name@ != kind.spec_name());
    }
}

fn take(sections: &Vec<RawSection>, kind: SectionKind) -> (taken: Result<SectionInfo, ElfError>)
    ensures
        match taken {
            Ok(info) => has_section(sections@, kind) && in_range(section_of(sections@, kind))
                && info@ == kept(section_of(sections@, kind)),
            Err(e) => if has_section(sections@, kind) {
                !in_range(section_of(sections@, kind)) && e == ElfError::SectionOutOfRange(kind)
            } else {
                e == ElfError::MissingSection(kind)
            },
        },
{
    match find(sections, kind) {
        None => Err(ElfError::MissingSection(kind)),
        Some(i) => {
            proof {
                lemma_first_named_unique(
                    sections@,
                    kind,
                    i as int,
                    choose|k: int| first_named(sections@, kind, k),
                );
            }
            let raw = &sections[i];
            if raw.size > u64::MAX - raw.offset {
                return Err(ElfError::SectionOutOfRange(kind));
            }
            let mut data: Vec<u8> = Vec::new();
            data.extend_from_slice(raw.data.as_slice());
            assert(data@ =~= raw.data@);
            Ok(
                SectionInfo {
                    range: #[verifier::truncate] (raw.offset as usize)..#[verifier::truncate] ((
                    raw.offset + raw.size) as usize),
                    data,
                    address: #[verifier::truncate] (raw.address as usize),
                },
            )
        },
    }
}

impl ElfFile {
    /// Takes the image whose file at `path` holds `sections`: of each kind
    /// of section that an image must have, the first section of that name
    /// is kept. An image that lacks one of them is not taken, nor one in
    /// which one of them ends beyond the range of an offset; the error
    /// names the first such kind in the order vector table, text, bss,
    /// data, read-only data.
    pub fn new(
        id: usize,
        name: String,
        path: String,
        _max_size: u64,
        sections: &Vec<RawSection>,
    ) -> (loaded: Result<Self, ElfError>)
        ensures
            match loaded {
                Ok(elf) => {
                    &&& first_fault(sections@, 0) is None
                    &&& elf@ == (ElfFileView {
                        id,
                        name: name@,
                        path: path@,
                        vector: kept(section_of(sections@, SectionKind::VectorTable)),
                        text: kept(section_of(sections@, SectionKind::Text)),
                        bss: kept(section_of(sections@, SectionKind::Bss)),
                        data: kept(section_of(sections@, SectionKind::Data)),
                        rodata: kept(section_of(sections@, SectionKind::Rodata)),
                    })
                },
                Err(e) => first_fault(sections@, 0) == Some(e),
            },
    {
        proof {
            reveal_with_fuel(first_fault, 6);
        }
        let vector = match take(sections, SectionKind::VectorTable) {
            Ok(info) => info,
            Err(e) => {
                return Err(e);
            },
        };
        let text = match take(sections, SectionKind::Text) {
            Ok(info) => info,
            Err(e) => {
                return Err(e);
            },
        };
        let bss = match take(sections, SectionKind::Bss) {
            Ok(info) => info,
            Err(e) => {
                return Err(e);
            },
        };
        let data = match take(sections, SectionKind::Data) {
            Ok(info) => info,
            Err(e) => {
                return Err(e);
            },
        };
        let rodata = match take(sections, SectionKind::Rodata) {
            Ok(info) => info,
            Err(e) => {
                return Err(e);
            },
        };
        Ok(Self { id, name, path, vector, text, rodata, bss, data })
    }

    /// Gives the image another name.
    pub fn rename(&mut self, name: String)
        ensures
            final(self)@ == (ElfFileView { name: name@, ..old(self)@ }),
    {
        self.name = name;
    }

    /// Whether `id` is the identifier of the image.
    pub fn identify(&self, id: usize) -> (yes: bool)
        ensures
            yes == (self@.id == id),
    {
        self.id == id
    }

    /// The name of the image.
    pub fn label(&self) -> (name: &String)
        ensures
            name@ == self@.name,
    {
        &self.name
    }

    /// The path of the file that the image came from.
    pub fn location(&self) -> (path: &String)
        ensures
            path@ == self@.path,
    {
        &self.path
    }
}

impl Default for ElfFile {
    fn default() -> (elf: Self)
        ensures
            elf@ == (ElfFileView {
                id: 0,
                name: Seq::empty(),
                path: Seq::empty(),
                vector: SectionInfo::spec_default(),
                text: SectionInfo::spec_default(),
                rodata: SectionInfo::spec_default(),
                bss: SectionInfo::spec_default(),
                data: SectionInfo::spec_default(),
            }),
    {
        Self {
            id: 0,
            name: String::new(),
            path: String::new(),
            vector: SectionInfo::default(),
            text: SectionInfo::default(),
            rodata: SectionInfo::default(),
            bss: SectionInfo::default(),
            data: SectionInfo::default(),
        }
    }
}

} // verus!
