use vstd::prelude::*;

verus! {

/// A semantic option of a mount, each standing for one kernel mount-flag bit.
#[derive(Clone, Copy, Debug, PartialEq, Eq, Structural)]
pub enum MountFlags {
    /// Takes a non-bind mount and adds the bind flag (useful when remounting binds).
    Bind,
    /// Make directory changes on this filesystem synchronous.
    SynchronousDirectories,
    /// Permit mandatory locking on files in this filesystem.
    MandatoryLock,
    /// Do not update access times for (all types of) files on this mount.
    NoAccessTime,
    /// Do not allow access to devices (special files) on this mount.
    NoDevices,
    /// Do not update access times for directories on this mount.
    NoDirectoryAccessTime,
    /// Do not allow programs to be executed from this mount.
    NoExecute,
    /// Do not honor set-user-ID and set-group-ID bits or file capabilities.
    NoSuid,
    /// Mount read-only.
    ReadOnly,
    /// Update access time only if it is not newer than the modification time.
    RelativeAccessTime,
    /// Suppress the display of certain warning messages in the kernel log.
    Silent,
    /// Always update the last access time.
    StrictAccessTime,
    /// Make writes on this mount synchronous.
    Synchronous,
}

/// One bit of the flags argument of mount(2), named after its `MS_*` constant.
#[derive(Clone, Copy, Debug, PartialEq, Eq, Structural)]
pub enum MsFlag {
    Rdonly,
    Nosuid,
    Nodev,
    Noexec,
    Synchronous,
    Remount,
    Mandlock,
    Dirsync,
    Noatime,
    Nodiratime,
    Bind,
    Move,
    Rec,
    Silent,
    Unbindable,
    Private,
    Slave,
    Shared,
    Relatime,
    Strictatime,
}

/// The kernel bit that a mount option stands for.
pub open spec fn ms_flag_of(f: MountFlags) -> MsFlag {
    match f {
        MountFlags::Bind => MsFlag::Bind,
        MountFlags::SynchronousDirectories => MsFlag::Dirsync,
        MountFlags::MandatoryLock => MsFlag::Mandlock,
        MountFlags::NoAccessTime => MsFlag::Noatime,
        MountFlags::NoDevices => MsFlag::Nodev,
        MountFlags::NoDirectoryAccessTime => MsFlag::Nodiratime,
        MountFlags::NoExecute => MsFlag::Noexec,
        MountFlags::NoSuid => MsFlag::Nosuid,
        MountFlags::ReadOnly => MsFlag::Rdonly,
        MountFlags::RelativeAccessTime => MsFlag::Relatime,
        MountFlags::Silent => MsFlag::Silent,
        MountFlags::StrictAccessTime => MsFlag::Strictatime,
        MountFlags::Synchronous => MsFlag::Synchronous,
    }
}

impl MountFlags {
    /// The kernel bit of this option.
    pub fn ms_flag(self) -> (r: MsFlag)
        ensures
            r == ms_flag_of(self),
    {
        match self {
            MountFlags::Bind => MsFlag::Bind,
            MountFlags::SynchronousDirectories => MsFlag::Dirsync,
            MountFlags::MandatoryLock => MsFlag::Mandlock,
            MountFlags::NoAccessTime => MsFlag::Noatime,
            MountFlags::NoDevices => MsFlag::Nodev,
            MountFlags::NoDirectoryAccessTime => MsFlag::Nodiratime,
            MountFlags::NoExecute => MsFlag::Noexec,
            MountFlags::NoSuid => MsFlag::Nosuid,
            MountFlags::ReadOnly => MsFlag::Rdonly,
            MountFlags::RelativeAccessTime => MsFlag::Relatime,
            MountFlags::Silent => MsFlag::Silent,
            MountFlags::StrictAccessTime => MsFlag::Strictatime,
            MountFlags::Synchronous => MsFlag::Synchronous,
        }
    }
}

/// A new mountpoint within a mount namespace: one call of mount(2).
///
/// Each variant carries only the fields meaningful to it: propagation changes
/// and remounts have no source and no filesystem type.
#[derive(Clone, Debug)]
pub enum Mount {
    /// Create a new mount of `source`, of an explicit filesystem type, at `target`.
    Mount {
        source: String,
        target: String,
        filesystem_type: String,
        flags: Vec<MountFlags>,
        make_target: bool,
    },
    /// Update the mount flags on an existing mount.
    Remount { target: String, flags: Vec<MountFlags> },
    /// Let mount and unmount events under the mount point propagate to its peers.
    Shared { target: String, flags: Vec<MountFlags> },
    /// Keep mount and unmount events under the mount point from propagating.
    Private { target: String, flags: Vec<MountFlags> },
    /// Let events propagate into the mount point but never out of it.
    Slave { target: String, flags: Vec<MountFlags> },
    /// Private, and the mount point and its children cannot be bound.
    Unbindable { target: String, flags: Vec<MountFlags> },
    /// Bind a directory to a new mount point.
    Bind { source: String, target: String, flags: Vec<MountFlags>, make_target: bool },
    /// Bind a directory and all mounts in its subtree to a new mount point.
    RecursiveBind { source: String, target: String, flags: Vec<MountFlags>, make_target: bool },
    /// Move a mount from an existing mount point to a new mount point.
    Relocate { source: String, target: String, flags: Vec<MountFlags>, make_target: bool },
}

impl Mount {
    /// The mount point.
    pub open spec fn spec_target(&self) -> Seq<char> {
        match self {
            Mount::Mount { target, .. } => target@,
            Mount::Remount { target, .. } => target@,
            Mount::Shared { target, .. } => target@,
            Mount::Private { target, .. } => target@,
            Mount::Slave { target, .. } => target@,
            Mount::Unbindable { target, .. } => target@,
            Mount::Bind { target, .. } => target@,
            Mount::RecursiveBind { target, .. } => target@,
            Mount::Relocate { target, .. } => target@,
        }
    }

    /// The source, for the variants that mount something at the target.
    pub open spec fn spec_source(&self) -> Option<Seq<char>> {
        match self {
            Mount::Mount { source, .. } => Some(source@),
            Mount::Bind { source, .. } => Some(source@),
            Mount::RecursiveBind { source, .. } => Some(source@),
            Mount::Relocate { source, .. } => Some(source@),
            _ => None,
        }
    }

    /// The filesystem type, given by a new mount only.
    pub open spec fn spec_filesystem_type(&self) -> Option<Seq<char>> {
        match self {
            Mount::Mount { filesystem_type, .. } => Some(filesystem_type@),
            _ => None,
        }
    }

    /// The explicitly requested options.
    pub open spec fn spec_flags(&self) -> Seq<MountFlags> {
        match self {
            Mount::Mount { flags, .. } => flags@,
            Mount::Remount { flags, .. } => flags@,
            Mount::Shared { flags, .. } => flags@,
            Mount::Private { flags, .. } => flags@,
            Mount::Slave { flags, .. } => flags@,
            Mount::Unbindable { flags, .. } => flags@,
            Mount::Bind { flags, .. } => flags@,
            Mount::RecursiveBind { flags, .. } => flags@,
            Mount::Relocate { flags, .. } => flags@,
        }
    }

    /// Whether a missing target directory is created before mounting.
    pub open spec fn spec_make_target(&self) -> bool {
        match self {
            Mount::Mount { make_target, .. } => *make_target,
            Mount::Bind { make_target, .. } => *make_target,
            Mount::RecursiveBind { make_target, .. } => *make_target,
            Mount::Relocate { make_target, .. } => *make_target,
            _ => false,
        }
    }

    /// The kernel bits that the variant implies whatever options were given.
    pub open spec fn default_flags(&self) -> Seq<MsFlag> {
        match self {
            Mount::Mount { .. } => seq![],
            Mount::Remount { .. } => seq![MsFlag::Remount],
            Mount::Shared { .. } => seq![MsFlag::Shared],
            Mount::Private { .. } => seq![MsFlag::Private],
            Mount::Slave { .. } => seq![MsFlag::Slave],
            Mount::Unbindable { .. } => seq![MsFlag::Unbindable],
            Mount::Bind { .. } => seq![MsFlag::Bind],
            Mount::RecursiveBind { .. } => seq![MsFlag::Bind, MsFlag::Rec],
            Mount::Relocate { .. } => seq![MsFlag::Move],
        }
    }

    /// The bits handed to mount(2): those of the explicit options, then the
    /// implied ones. Read as a set, this is their union.
    pub open spec fn effective_flags(&self) -> Seq<MsFlag> {
        self.spec_flags().map_values(|f: MountFlags| ms_flag_of(f)) + self.default_flags()
    }
}


impl Mount {
    /// Create a new mount of `src`, of filesystem type `fstype`, at `target`.
    pub fn new(src: &str, target: &str, fstype: &str) -> (r: Mount)
        ensures
            r is Mount,
            r.spec_source() == Some(src@),
            r.spec_target() == target@,
            r.spec_filesystem_type() == Some(fstype@),
            r.spec_flags().len() == 0,
            !r.spec_make_target(),
    {
        Mount::Mount {
            source: String::from_str(src),
            target: String::from_str(target),
            filesystem_type: String::from_str(fstype),
            flags: Vec::new(),
            make_target: false,
        }
    }

    /// Update the mount flags on the existing mount at `target`.
    pub fn remount(target: &str) -> (r: Mount)
        ensures
            r is Remount,
            r.spec_target() == target@,
            r.spec_flags().len() == 0,
    {
        Mount::Remount { target: String::from_str(target), flags: Vec::new() }
    }

    /// Bind the directory `src` to the mount point `target`.
    pub fn bind(src: &str, target: &str) -> (r: Mount)
        ensures
            r is Bind,
            r.spec_source() == Some(src@),
            r.spec_target() == target@,
            r.spec_flags().len() == 0,
            !r.spec_make_target(),
    {
        Mount::Bind {
            source: String::from_str(src),
            target: String::from_str(target),
            flags: Vec::new(),
            make_target: false,
        }
    }

    /// Bind `src` and all mounts in its subtree to the mount point `target`.
    pub fn recursive_bind(src: &str, target: &str) -> (r: Mount)
        ensures
            r is RecursiveBind,
            r.spec_source() == Some(src@),
            r.spec_target() == target@,
            r.spec_flags().len() == 0,
            !r.spec_make_target(),
    {
        Mount::RecursiveBind {
            source: String::from_str(src),
            target: String::from_str(target),
            flags: Vec::new(),
            make_target: false,
        }
    }

    /// Make the existing mount point `target` shared.
    pub fn shared(target: &str) -> (r: Mount)
        ensures
            r is Shared,
            r.spec_target() == target@,
            r.spec_flags().len() == 0,
    {
        Mount::Shared { target: String::from_str(target), flags: Vec::new() }
    }

    /// Make the existing mount point `target` private.
    pub fn private(target: &str) -> (r: Mount)
        ensures
            r is Private,
            r.spec_target() == target@,
            r.spec_flags().len() == 0,
    {
        Mount::Private { target: String::from_str(target), flags: Vec::new() }
    }

    /// Make the existing mount point `target` a slave.
    pub fn slave(target: &str) -> (r: Mount)
        ensures
            r is Slave,
            r.spec_target() == target@,
            r.spec_flags().len() == 0,
    {
        Mount::Slave { target: String::from_str(target), flags: Vec::new() }
    }

    /// Make the existing mount point `target` unbindable.
    pub fn unbindable(target: &str) -> (r: Mount)
        ensures
            r is Unbindable,
            r.spec_target() == target@,
            r.spec_flags().len() == 0,
    {
        Mount::Unbindable { target: String::from_str(target), flags: Vec::new() }
    }

    /// Move the mount at `src` to the mount point `target`.
    pub fn relocate(src: &str, target: &str) -> (r: Mount)
        ensures
            r is Relocate,
            r.spec_source() == Some(src@),
            r.spec_target() == target@,
            r.spec_flags().len() == 0,
            !r.spec_make_target(),
    {
        Mount::Relocate {
            source: String::from_str(src),
            target: String::from_str(target),
            flags: Vec::new(),
            make_target: false,
        }
    }
}


/// What one mount(2) call is given, and whether its target directory is
/// created (with all missing parents) before the call.
pub struct MountCall {
    pub make_target_dir: bool,
    pub source: Option<String>,
    pub target: String,
    pub filesystem_type: Option<String>,
    pub flags: Vec<MsFlag>,
}

impl Mount {
    /// Both mounts are of the same variant.
    pub open spec fn same_variant(&self, other: &Mount) -> bool {
        match (self, other) {
            (Mount::Mount { .. }, Mount::Mount { .. }) => true,
            (Mount::Remount { .. }, Mount::Remount { .. }) => true,
            (Mount::Shared { .. }, Mount::Shared { .. }) => true,
            (Mount::Private { .. }, Mount::Private { .. }) => true,
            (Mount::Slave { .. }, Mount::Slave { .. }) => true,
            (Mount::Unbindable { .. }, Mount::Unbindable { .. }) => true,
            (Mount::Bind { .. }, Mount::Bind { .. }) => true,
            (Mount::RecursiveBind { .. }, Mount::RecursiveBind { .. }) => true,
            (Mount::Relocate { .. }, Mount::Relocate { .. }) => true,
            _ => false,
        }
    }

    /// The variant has a target directory that it may create.
    pub open spec fn can_make_target(&self) -> bool {
        self is Mount || self is Bind || self is RecursiveBind || self is Relocate
    }

    /// Add an option to the explicit ones.
    pub fn add_flag(self, flag: MountFlags) -> (r: Mount)
        ensures
            r.same_variant(&self),
            r.spec_source() == self.spec_source(),
            r.spec_target() == self.spec_target(),
            r.spec_filesystem_type() == self.spec_filesystem_type(),
            r.spec_make_target() == self.spec_make_target(),
            r.spec_flags() == self.spec_flags().push(flag),
    {
        match self {
            Mount::Mount { source, target, filesystem_type, mut flags, make_target } => {
                flags.push(flag);
                Mount::Mount { source, target, filesystem_type, flags, make_target }
            },
            Mount::Remount { target, mut flags } => {
                flags.push(flag);
                Mount::Remount { target, flags }
            },
            Mount::Shared { target, mut flags } => {
                flags.push(flag);
                Mount::Shared { target, flags }
            },
            Mount::Private { target, mut flags } => {
                flags.push(flag);
                Mount::Private { target, flags }
            },
            Mount::Slave { target, mut flags } => {
                flags.push(flag);
                Mount::Slave { target, flags }
            },
            Mount::Unbindable { target, mut flags } => {
                flags.push(flag);
                Mount::Unbindable { target, flags }
            },
            Mount::Bind { source, target, mut flags, make_target } => {
                flags.push(flag);
                Mount::Bind { source, target, flags, make_target }
            },
            Mount::RecursiveBind { source, target, mut flags, make_target } => {
                flags.push(flag);
                Mount::RecursiveBind { source, target, flags, make_target }
            },
            Mount::Relocate { source, target, mut flags, make_target } => {
                flags.push(flag);
                Mount::Relocate { source, target, flags, make_target }
            },
        }
    }

    /// Create the target directory if it does not exist, for the variants that
    /// have one to create; the others are returned unchanged.
    pub fn make_target_dir(self) -> (r: Mount)
        ensures
            r.same_variant(&self),
            r.spec_source() == self.spec_source(),
            r.spec_target() == self.spec_target(),
            r.spec_filesystem_type() == self.spec_filesystem_type(),
            r.spec_flags() == self.spec_flags(),
            r.spec_make_target() == self.can_make_target(),
            !self.can_make_target() ==> r == self,
    {
        match self {
            Mount::Mount { source, target, filesystem_type, flags, .. } => {
                Mount::Mount { source, target, filesystem_type, flags, make_target: true }
            },
            Mount::Bind { source, target, flags, .. } => {
                Mount::Bind { source, target, flags, make_target: true }
            },
            Mount::RecursiveBind { source, target, flags, .. } => {
                Mount::RecursiveBind { source, target, flags, make_target: true }
            },
            Mount::Relocate { source, target, flags, .. } => {
                Mount::Relocate { source, target, flags, make_target: true }
            },
            _ => self,
        }
    }

    /// Whether a missing target directory is created before mounting.
    pub fn should_make_dir(&self) -> (r: bool)
        ensures
            r == self.spec_make_target(),
    {
        match self {
            Mount::Mount { make_target, .. } => *make_target,
            Mount::Bind { make_target, .. } => *make_target,
            Mount::RecursiveBind { make_target, .. } => *make_target,
            Mount::Relocate { make_target, .. } => *make_target,
            _ => false,
        }
    }

    /// The mount point.
    pub fn target(&self) -> (r: &String)
        ensures
            r@ == self.spec_target(),
    {
        match self {
            Mount::Mount { target, .. } => target,
            Mount::Remount { target, .. } => target,
            Mount::Shared { target, .. } => target,
            Mount::Private { target, .. } => target,
            Mount::Slave { target, .. } => target,
            Mount::Unbindable { target, .. } => target,
            Mount::Bind { target, .. } => target,
            Mount::RecursiveBind { target, .. } => target,
            Mount::Relocate { target, .. } => target,
        }
    }

    /// The source, for the variants that mount something at the target.
    pub fn source(&self) -> (r: Option<&String>)
        ensures
            r is Some <==> self.spec_source() is Some,
            r is Some ==> r->0@ == self.spec_source()->0,
    {
        match self {
            Mount::Mount { source, .. } => Some(source),
            Mount::Bind { source, .. } => Some(source),
            Mount::RecursiveBind { source, .. } => Some(source),
            Mount::Relocate { source, .. } => Some(source),
            _ => None,
        }
    }

    /// The filesystem type, given by a new mount only.
    pub fn filesystem_type(&self) -> (r: Option<&String>)
        ensures
            r is Some <==> self.spec_filesystem_type() is Some,
            r is Some ==> r->0@ == self.spec_filesystem_type()->0,
    {
        match self {
            Mount::Mount { filesystem_type, .. } => Some(filesystem_type),
            _ => None,
        }
    }

    /// The explicitly requested options.
    fn explicit_flags(&self) -> (r: &Vec<MountFlags>)
        ensures
            r@ == self.spec_flags(),
    {
        match self {
            Mount::Mount { flags, .. } => flags,
            Mount::Remount { flags, .. } => flags,
            Mount::Shared { flags, .. } => flags,
            Mount::Private { flags, .. } => flags,
            Mount::Slave { flags, .. } => flags,
            Mount::Unbindable { flags, .. } => flags,
            Mount::Bind { flags, .. } => flags,
            Mount::RecursiveBind { flags, .. } => flags,
            Mount::Relocate { flags, .. } => flags,
        }
    }

    /// The kernel bits handed to mount(2): the explicit options' bits, then
    /// the bits that the variant implies.
    pub fn flags(&self) -> (r: Vec<MsFlag>)
        ensures
            r@ == self.effective_flags(),
    {
        let supplied = self.explicit_flags();
        let mut r: Vec<MsFlag> = Vec::new();
        let mut i: usize = 0;
        while i < supplied.len()
            invariant
                i <= supplied@.len(),
                supplied@ == self.spec_flags(),
                r@ == supplied@.subrange(0, i as int).map_values(|f: MountFlags| ms_flag_of(f)),
            decreases supplied@.len() - i,
        {
            r.push(supplied[i].ms_flag());
            i = i + 1;
            assert(r@ =~= supplied@.subrange(0, i as int).map_values(|f: MountFlags| ms_flag_of(f)));
        }
        assert(supplied@.subrange(0, i as int) =~= supplied@);
        match self {
            Mount::Mount { .. } => {},
            Mount::Remount { .. } => r.push(MsFlag::Remount),
            Mount::Shared { .. } => r.push(MsFlag::Shared),
            Mount::Private { .. } => r.push(MsFlag::Private),
            Mount::Slave { .. } => r.push(MsFlag::Slave),
            Mount::Unbindable { .. } => r.push(MsFlag::Unbindable),
            Mount::Bind { .. } => r.push(MsFlag::Bind),
            Mount::RecursiveBind { .. } => {
                r.push(MsFlag::Bind);
                r.push(MsFlag::Rec);
            },
            Mount::Relocate { .. } => r.push(MsFlag::Move),
        }
        assert(r@ =~= self.effective_flags());
        r
    }

    /// The mount(2) call that applies this specification: the target
    /// directory to create first if asked, then source, target, filesystem
    /// type and the effective flags.
    pub fn mount(&self) -> (r: MountCall)
        ensures
            r.make_target_dir == self.spec_make_target(),
            r.source is Some <==> self.spec_source() is Some,
            r.source is Some ==> r.source->0@ == self.spec_source()->0,
            r.target@ == self.spec_target(),
            r.filesystem_type is Some <==> self.spec_filesystem_type() is Some,
            r.filesystem_type is Some ==> r.filesystem_type->0@ == self.spec_filesystem_type()->0,
            r.flags@ == self.effective_flags(),
    {
        let source = match self.source() {
            Some(s) => Some(s.clone()),
            None => None,
        };
        let filesystem_type = match self.filesystem_type() {
            Some(s) => Some(s.clone()),
            None => None,
        };
        MountCall {
            make_target_dir: self.should_make_dir(),
            source,
            target: self.target().clone(),
            filesystem_type,
            flags: self.flags(),
        }
    }
}


/// Whatever options were given, the effective flags of a bind hold the bind
/// bit, those of a recursive bind the bind and recursive bits, those of a
/// remount the remount bit, and those of each propagation change its own
/// propagation bit.
pub proof fn lemma_implied_flags(m: Mount)
    ensures
        m is Bind ==> m.effective_flags().contains(MsFlag::Bind),
        m is RecursiveBind ==> m.effective_flags().contains(MsFlag::Bind)
            && m.effective_flags().contains(MsFlag::Rec),
        m is Remount ==> m.effective_flags().contains(MsFlag::Remount),
        m is Shared ==> m.effective_flags().contains(MsFlag::Shared),
        m is Private ==> m.effective_flags().contains(MsFlag::Private),
        m is Slave ==> m.effective_flags().contains(MsFlag::Slave),
        m is Unbindable ==> m.effective_flags().contains(MsFlag::Unbindable),
        m is Relocate ==> m.effective_flags().contains(MsFlag::Move),
{
    let e = m.effective_flags();
    let n: int = m.spec_flags().len() as int;
    if !(m is Mount) {
        assert(e[n] == m.default_flags()[0]);
    }
    if m is RecursiveBind {
        assert(e[n + 1] == MsFlag::Rec);
    }
}

} // verus!
