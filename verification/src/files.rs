//! Durable identity of an open file: device, inode and overlay layer.

use vstd::prelude::*;

pub mod dev;

verus! {

/// Magic number of the superblock of an overlay filesystem.
pub const OVERLAYFS_SUPER_MAGIC: u64 = 0x794c7630;

/// Layer of an overlay filesystem that a file lives in.
#[derive(Clone, Copy, Debug, PartialEq, Eq, Structural)]
pub enum Overlay {
    /// The file is not on an overlay filesystem.
    Absent,
    /// The file is in the writable upper layer.
    Upper,
    /// The file is in the read-only lower layer.
    Lower,
}

impl Overlay {
    /// Numeric code of the layer as it is written into events.
    pub open spec fn code(self) -> u16 {
        match self {
            Overlay::Absent => 0,
            Overlay::Upper => 1,
            Overlay::Lower => 2,
        }
    }

    /// Returns the numeric code of the layer.
    pub fn to_u16(self) -> (code: u16)
        ensures
            code == self.code(),
    {
        match self {
            Overlay::Absent => 0,
            Overlay::Upper => 1,
            Overlay::Lower => 2,
        }
    }
}

impl TryFrom<u16> for Overlay {
    type Error = ();

    fn try_from(v: u16) -> (r: Result<Self, Self::Error>) {
        if v == 0 {
            Ok(Overlay::Absent)
        } else if v == 1 {
            Ok(Overlay::Upper)
        } else if v == 2 {
            Ok(Overlay::Lower)
        } else {
            Err(())
        }
    }
}

impl vstd::std_specs::convert::TryFromSpecImpl<u16> for Overlay {
    open spec fn obeys_try_from_spec() -> bool {
        true
    }

    open spec fn try_from_spec(v: u16) -> Result<Self, Self::Error> {
        if v == 0 {
            Ok(Overlay::Absent)
        } else if v == 1 {
            Ok(Overlay::Upper)
        } else if v == 2 {
            Ok(Overlay::Lower)
        } else {
            Err(())
        }
    }
}

/// A superblock, as far as it could be read.
#[derive(Debug)]
pub struct SuperBlock {
    /// The kernel's device number of the filesystem.
    pub s_dev: Result<u32, i64>,
    /// The magic number of the filesystem type.
    pub s_magic: Result<u64, i64>,
}

/// An inode, as far as it could be read.
#[derive(Debug)]
pub struct Inode {
    /// The superblock of the filesystem that holds the inode.
    pub i_sb: Result<SuperBlock, i64>,
    /// The inode number.
    pub i_ino: Result<u64, i64>,
    /// On an overlay filesystem, the path entry of the file in the upper layer.
    pub upper_dentry: Result<Box<Dentry>, i64>,
}

/// A path entry, as far as it could be read.
#[derive(Debug)]
pub struct Dentry {
    /// The superblock of the filesystem that holds the entry.
    pub d_sb: Result<SuperBlock, i64>,
    /// The inode that the entry names.
    pub d_inode: Result<Inode, i64>,
}

/// An open file, as far as it could be read. Every link to another kernel
/// structure holds either that structure or the code of the failed read.
#[derive(Debug)]
pub struct File {
    /// The inode of the file.
    pub f_inode: Result<Inode, i64>,
    /// The path entry under which the file was opened.
    pub f_dentry: Result<Dentry, i64>,
}

/// A file name that was handed to a system call: the path as it was given,
/// and the file that it names.
#[derive(Debug)]
pub struct Filename {
    /// The bytes of the path, or the code of the read that failed to fetch
    /// them.
    pub name: Result<Vec<u8>, i64>,
    /// The file that the path names.
    pub file: File,
}

impl File {
    /// Kernel device number and inode number of the file, or the code of the
    /// first link that could not be read on the way: inode, superblock,
    /// device, inode number.
    pub open spec fn spec_dev_ino(&self) -> Result<(u32, u64), i64> {
        match self.f_inode {
            Err(code) => Err(code),
            Ok(inode) => match inode.i_sb {
                Err(code) => Err(code),
                Ok(sb) => match sb.s_dev {
                    Err(code) => Err(code),
                    Ok(dev) => match inode.i_ino {
                        Err(code) => Err(code),
                        Ok(ino) => Ok((dev, ino)),
                    },
                },
            },
        }
    }

    /// The file's path entry can be read and lies on an overlay filesystem.
    pub open spec fn on_overlayfs(&self) -> bool {
        &&& self.f_dentry is Ok
        &&& self.f_dentry->Ok_0.d_sb is Ok
        &&& self.f_dentry->Ok_0.d_sb->Ok_0.s_magic == Ok::<u64, i64>(OVERLAYFS_SUPER_MAGIC)
    }

    /// The inode number of the file in the upper layer can be reached: from
    /// the path entry to its inode, to the upper path entry, to its inode, to
    /// the inode number.
    pub open spec fn has_upper_inode(&self) -> bool {
        &&& self.f_dentry is Ok
        &&& self.f_dentry->Ok_0.d_inode is Ok
        &&& self.f_dentry->Ok_0.d_inode->Ok_0.upper_dentry is Ok
        &&& self.f_dentry->Ok_0.d_inode->Ok_0.upper_dentry->Ok_0.d_inode is Ok
        &&& self.f_dentry->Ok_0.d_inode->Ok_0.upper_dentry->Ok_0.d_inode->Ok_0.i_ino is Ok
    }

    /// Overlay layer of the file.
    pub open spec fn spec_overlay(&self) -> Overlay {
        if !self.on_overlayfs() {
            Overlay::Absent
        } else if self.has_upper_inode() {
            Overlay::Upper
        } else {
            Overlay::Lower
        }
    }

    /// Device identifier, inode number and overlay layer of the file.
    pub open spec fn spec_dev_ino_overlay(&self) -> Result<(u32, u64, Overlay), i64> {
        match self.spec_dev_ino() {
            Err(code) => Err(code),
            Ok((dev, ino)) => Ok((dev::spec_encode(dev) as u32, ino, self.spec_overlay())),
        }
    }
}

/// Resolves the identity of an open file: the encoded device identifier, the
/// inode number and the overlay layer. Device and inode are mandatory: the
/// first link that cannot be read on the way to them fails the call with the
/// code of that read. The overlay layer never fails the call.
pub fn dev_ino_overlay(file: &File) -> (r: Result<(u32, u64, Overlay), i64>)
    ensures
        r == file.spec_dev_ino_overlay(),
        r is Err <==> file.spec_dev_ino() is Err,
{
    let inode = match &file.f_inode {
        Ok(inode) => inode,
        Err(code) => return Err(*code),
    };
    let sb = match &inode.i_sb {
        Ok(sb) => sb,
        Err(code) => return Err(*code),
    };
    let dev = match &sb.s_dev {
        Ok(dev) => *dev,
        Err(code) => return Err(*code),
    };
    let ino = match &inode.i_ino {
        Ok(ino) => *ino,
        Err(code) => return Err(*code),
    };
    Ok((dev::encode(dev), ino, overlay(file)))
}

/// Classifies the overlay layer of an open file. A file whose path entry
/// cannot be read, or whose filesystem is not an overlay filesystem, is on no
/// overlay. On an overlay filesystem the file is in the upper layer when the
/// inode number of its upper-layer inode can be reached, and in the lower
/// layer when any link on the way there cannot be read.
pub fn overlay(file: &File) -> (layer: Overlay)
    ensures
        layer == file.spec_overlay(),
        !file.on_overlayfs() ==> layer == Overlay::Absent,
        file.on_overlayfs() && file.has_upper_inode() ==> layer == Overlay::Upper,
        file.on_overlayfs() && !file.has_upper_inode() ==> layer == Overlay::Lower,
{
    let dentry = match &file.f_dentry {
        Ok(dentry) => dentry,
        Err(_) => return Overlay::Absent,
    };
    let on_overlayfs = match &dentry.d_sb {
        Ok(sb) => match &sb.s_magic {
            Ok(s_magic) => *s_magic == OVERLAYFS_SUPER_MAGIC,
            Err(_) => false,
        },
        Err(_) => false,
    };
    if !on_overlayfs {
        return Overlay::Absent;
    }
    let inode = match &dentry.d_inode {
        Ok(inode) => inode,
        Err(_) => return Overlay::Lower,
    };
    let upper_dentry = match &inode.upper_dentry {
        Ok(upper_dentry) => upper_dentry,
        Err(_) => return Overlay::Lower,
    };
    let upper_inode = match &upper_dentry.d_inode {
        Ok(upper_inode) => upper_inode,
        Err(_) => return Overlay::Lower,
    };
    match &upper_inode.i_ino {
        Ok(_) => Overlay::Upper,
        Err(_) => Overlay::Lower,
    }
}

} // verus!
