//! The debugger: the firmware images that were loaded and the links to
//! device interfaces, each under an identifier and a name.

pub mod elf;
pub mod link;

use vstd::prelude::*;
use vstd::string::StringExecFns;
use crossbeam_channel::{Receiver, Sender};
use self::elf::{first_fault, kept, section_of, ElfError, ElfFile, ElfFileView, RawSection, SectionKind};
use self::link::NamedLink;

verus! {

/// The most memory that loaded images may take: 512 MiB.
pub const MAX_MEM_USAGE: usize = 0x2000_0000;

/// The decimal digit `d` as a character.
pub open spec fn digit(d: nat) -> char {
    if d == 0 {
        '0'
    } else if d == 1 {
        '1'
    } else if d == 2 {
        '2'
    } else if d == 3 {
        '3'
    } else if d == 4 {
        '4'
    } else if d == 5 {
        '5'
    } else if d == 6 {
        '6'
    } else if d == 7 {
        '7'
    } else if d == 8 {
        '8'
    } else {
        '9'
    }
}

/// The number `n` in decimal digits, without leading zeros.
pub open spec fn decimal(n: nat) -> Seq<char>
    decreases n,
{
    if n < 10 {
        seq![digit(n)]
    } else {
        decimal(n / 10).push(digit(n % 10))
    }
}

fn digit_str(d: usize) -> (s: &'static str)
    requires
        d < 10,
    ensures
        s@ == seq![digit(d as nat)],
{
    proof {
        reveal_strlit("0");
        reveal_strlit("1");
        reveal_strlit("2");
        reveal_strlit("3");
        reveal_strlit("4");
        reveal_strlit("5");
        reveal_strlit("6");
        reveal_strlit("7");
        reveal_strlit("8");
        reveal_strlit("9");
    }
    let s = match d {
        0 => "0",
        1 => "1",
        2 => "2",
        3 => "3",
        4 => "4",
        5 => "5",
        6 => "6",
        7 => "7",
        8 => "8",
        _ => "9",
    };
    assert(s@ =~= seq![digit(d as nat)]);
    s
}

/// `prefix` with the number `n` in decimal digits behind it.
pub fn numbered(prefix: &str, n: usize) -> (name: String)
    ensures
        name@ == prefix@ + decimal(n as nat),
    decreases n,
{
    if n < 10 {
        let mut name = String::from_str(prefix);
        name.append(digit_str(n));
        name
    } else {
        let mut name = numbered(prefix, n / 10);
        name.append(digit_str(n % 10));
        assert(name@ =~= prefix@ + decimal(n as nat));
        name
    }
}

/// The debugger.
pub struct Debugger {
    /// The images that were loaded.
    pub elfs: Vec<ElfFile>,
    /// The identifier of the next image.
    euid: usize,
    /// The links to device interfaces.
    pub links: Vec<NamedLink>,
    /// The identifier of the next link.
    luid: usize,
    /// The memory that is left for images.
    mem: usize,
}

impl Debugger {
    /// The images that were loaded, in the order of their loading.
    pub closed spec fn images(&self) -> Seq<ElfFile> {
        self.elfs@
    }

    /// The identifier that the next image gets.
    pub closed spec fn next_image(&self) -> usize {
        self.euid
    }

    /// The links that were made, in the order of their making.
    pub closed spec fn connections(&self) -> Seq<NamedLink> {
        self.links@
    }

    /// The identifier that the next link gets.
    pub closed spec fn next_link(&self) -> usize {
        self.luid
    }

    /// The memory that is left for images.
    pub closed spec fn free_memory(&self) -> usize {
        self.mem
    }

    /// A debugger without images and links.
    pub fn new() -> (debugger: Self)
        ensures
            debugger.images() == Seq::<ElfFile>::empty(),
            debugger.next_image() == 0,
            debugger.connections() == Seq::<NamedLink>::empty(),
            debugger.next_link() == 0,
            debugger.free_memory() == MAX_MEM_USAGE,
    {
        Self { elfs: Vec::new(), euid: 0, links: Vec::new(), luid: 0, mem: MAX_MEM_USAGE }
    }

    /// Takes the image whose file at `path` holds `sections`, under the
    /// next identifier and the name `elf` with that identifier behind it,
    /// and hands back the identifier. An image that `ElfFile::new` does
    /// not take leaves the debugger as it was, as does an image for which
    /// no identifier is left.
    pub fn load(&mut self, path: String, sections: &Vec<RawSection>) -> (loaded: Result<
        usize,
        ElfError,
    >)
        ensures
            final(self).connections() == old(self).connections(),
            final(self).next_link() == old(self).next_link(),
            final(self).free_memory() == old(self).free_memory(),
            match loaded {
                Ok(id) => {
                    &&& first_fault(sections@, 0) is None
                    &&& id == old(self).next_image()
                    &&& final(self).next_image() == id + 1
                    &&& final(self).images().len() == old(self).images().len() + 1
                    &&& final(self).images().drop_last() == old(self).images()
                    &&& final(self).images().last()@ == (ElfFileView {
                        id,
                        name: "elf"@ + decimal(id as nat),
                        path: path@,
                        vector: kept(section_of(sections@, SectionKind::VectorTable)),
                        text: kept(section_of(sections@, SectionKind::Text)),
                        bss: kept(section_of(sections@, SectionKind::Bss)),
                        data: kept(section_of(sections@, SectionKind::Data)),
                        rodata: kept(section_of(sections@, SectionKind::Rodata)),
                    })
                },
                Err(e) => {
                    &&& final(self).images() == old(self).images()
                    &&& final(self).next_image() == old(self).next_image()
                    &&& match first_fault(sections@, 0) {
                        Some(fault) => e == fault,
                        None => e == ElfError::TooManyImages && old(self).next_image()
                            == usize::MAX,
                    }
                },
            },
    {
        let id = self.euid;
        let elf = match ElfFile::new(id, numbered("elf", id), path, self.mem as u64, sections) {
            Ok(elf) => elf,
            Err(e) => {
                return Err(e);
            },
        };
        if id == usize::MAX {
            return Err(ElfError::TooManyImages);
        }
        self.elfs.push(elf);
        self.euid = id + 1;
        assert(self.elfs@.drop_last() =~= old(self).elfs@);
        Ok(id)
    }

    /// Takes a link whose channel ends are `send` and `recv`, under the
    /// next identifier and the name `link` with that identifier behind it,
    /// and hands back the identifier. Where no identifier is left, the
    /// debugger stays as it was.
    pub fn connect(&mut self, send: Sender<Vec<u8>>, recv: Receiver<Vec<u8>>) -> (made: Result<
        usize,
        (),
    >)
        ensures
            final(self).images() == old(self).images(),
            final(self).next_image() == old(self).next_image(),
            final(self).free_memory() == old(self).free_memory(),
            match made {
                Ok(id) => {
                    &&& id == old(self).next_link()
                    &&& final(self).next_link() == id + 1
                    &&& final(self).connections().len() == old(self).connections().len() + 1
                    &&& final(self).connections().drop_last() == old(self).connections()
                    &&& final(self).connections().last().id() == id
                    &&& final(self).connections().last().name() == "link"@ + decimal(id as nat)
                    &&& final(self).connections().last().outgoing() == send
                    &&& final(self).connections().last().incoming() == recv
                },
                Err(_) => {
                    &&& old(self).next_link() == usize::MAX
                    &&& final(self).connections() == old(self).connections()
                    &&& final(self).next_link() == old(self).next_link()
                },
            },
    {
        let id = self.luid;
        if id == usize::MAX {
            return Err(());
        }
        self.links.push(NamedLink::new(id, numbered("link", id), send, recv));
        self.luid = id + 1;
        assert(self.links@.drop_last() =~= old(self).links@);
        Ok(id)
    }

    /// Whether image `i` is the first one that answers to `id`.
    pub open spec fn first_image(&self, id: usize, i: int) -> bool {
        &&& 0 <= i < self.images().len()
        &&& self.images()[i]@.id == id
        &&& forall|j: int| 0 <= j < i ==> (#[trigger] self.images()[j])@.id != id
    }

    /// Whether link `i` is the first one that answers to `id`.
    pub open spec fn first_link(&self, id: usize, i: int) -> bool {
        &&& 0 <= i < self.connections().len()
        &&& self.connections()[i].id() == id
        &&& forall|j: int| 0 <= j < i ==> (#[trigger] self.connections()[j]).id() != id
    }

    /// Gives the first image that answers to `id` the name `name` and hands
    /// the debugger back. If no image answers to `id`, the debugger stays
    /// as it was.
    pub fn rename_elf(&mut self, id: usize, name: String) -> (renamed: Result<&mut Self, ()>)
        ensures
            match renamed {
                Ok(me) => {
                    &&& *final(self) == *final(me)
                    &&& me.connections() == old(self).connections()
                    &&& me.next_link() == old(self).next_link()
                    &&& me.next_image() == old(self).next_image()
                    &&& me.free_memory() == old(self).free_memory()
                    &&& me.images().len() == old(self).images().len()
                    &&& exists|i: int|
                        {
                            &&& old(self).first_image(id, i)
                            &&& me.images()[i]@ == (ElfFileView {
                                name: name@,
                                ..old(self).images()[i]@
                            })
                            &&& forall|j: int|
                                0 <= j < old(self).images().len() && j != i ==> me.images()[j]
                                    == old(self).images()[j]
                        }
                },
                Err(_) => *final(self) == *old(self) && forall|i: int|
                    0 <= i < old(self).images().len() ==> (#[trigger] old(self).images()[i])@.id
                        != id,
            },
    {
        let mut i: usize = 0;
        while i < self.elfs.len()
            invariant
                *self == *old(self),
                forall|j: int|
                    0 <= j < i && j < self.elfs@.len() ==> (#[trigger] self.elfs@[j])@.id != id,
            decreases self.elfs@.len() - i,
        {
            if self.elfs[i].identify(id) {
                let mut elf = self.elfs.remove(i);
                elf.rename(name);
                self.elfs.insert(i, elf);
                assert(old(self).first_image(id, i as int));
                return Ok(self);
            }
            i += 1;
        }
        Err(())
    }

    /// Gives the first link that answers to `id` the name `name` and hands
    /// the debugger back. If no link answers to `id`, the debugger stays as
    /// it was.
    pub fn rename_link(&mut self, id: usize, name: String) -> (renamed: Result<&mut Self, ()>)
        ensures
            match renamed {
                Ok(me) => {
                    &&& *final(self) == *final(me)
                    &&& me.images() == old(self).images()
                    &&& me.next_link() == old(self).next_link()
                    &&& me.next_image() == old(self).next_image()
                    &&& me.free_memory() == old(self).free_memory()
                    &&& me.connections().len() == old(self).connections().len()
                    &&& exists|i: int|
                        {
                            &&& old(self).first_link(id, i)
                            &&& me.connections()[i].name() == name@
                            &&& me.connections()[i].id() == id
                            &&& me.connections()[i].outgoing() == old(self).connections()[i].outgoing()
                            &&& me.connections()[i].incoming() == old(self).connections()[i].incoming()
                            &&& forall|j: int|
                                0 <= j < old(self).connections().len() && j != i
                                    ==> me.connections()[j] == old(self).connections()[j]
                        }
                },
                Err(_) => *final(self) == *old(self) && forall|i: int|
                    0 <= i < old(self).connections().len() ==> (#[trigger] old(self).connections()[i]).id()
                        != id,
            },
    {
        let mut i: usize = 0;
        while i < self.links.len()
            invariant
                *self == *old(self),
                forall|j: int|
                    0 <= j < i && j < self.links@.len() ==> (#[trigger] self.links@[j]).id() != id,
            decreases self.links@.len() - i,
        {
            if self.links[i].identify(id) {
                let mut link = self.links.remove(i);
                link.rename(name);
                self.links.insert(i, link);
                assert(old(self).first_link(id, i as int));
                return Ok(self);
            }
            i += 1;
        }
        Err(())
    }
}

} // verus!
