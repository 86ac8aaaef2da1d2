use vstd::prelude::*;

verus! {

/// How a file is to be opened: for reading, writing, creation, appending and
/// truncation. All flags start out false and change only through the setters.
#[derive(Debug, Clone, Copy, PartialEq, Eq, Structural)]
pub struct OpenOptions {
    read: bool,
    write: bool,
    create: bool,
    append: bool,
    truncate: bool,
}

/// The three ways the file operations open a file.
#[derive(Debug, Clone, Copy, PartialEq, Eq, Structural)]
pub enum FileAccess {
    /// Read an existing file.
    Open,
    /// Write a file, creating it if absent and truncating it if present.
    Create,
    /// Write at the end of a file, creating it if absent.
    Append,
}

impl OpenOptions {
    pub closed spec fn spec_read(&self) -> bool {
        self.read
    }

    pub closed spec fn spec_write(&self) -> bool {
        self.write
    }

    pub closed spec fn spec_create(&self) -> bool {
        self.create
    }

    pub closed spec fn spec_append(&self) -> bool {
        self.append
    }

    pub closed spec fn spec_truncate(&self) -> bool {
        self.truncate
    }

    /// The flags as a tuple: read, write, create, append, truncate.
    pub open spec fn flags(&self) -> (bool, bool, bool, bool, bool) {
        (self.spec_read(), self.spec_write(), self.spec_create(), self.spec_append(), self.spec_truncate())
    }

    /// Options with every flag off.
    pub fn new() -> (r: OpenOptions)
        ensures
            r.flags() == (false, false, false, false, false),
    {
        OpenOptions::default()
    }

    /// Open for reading.
    pub fn set_read(&mut self, read: bool) -> (r: &mut OpenOptions)
        ensures
            r.flags() == (read, old(self).spec_write(), old(self).spec_create(), old(self).spec_append(), old(self).spec_truncate()),
            *final(self) == *final(r),
    {
        self.read = read;
        self
    }

    /// Open for writing.
    pub fn set_write(&mut self, write: bool) -> (r: &mut OpenOptions)
        ensures
            r.flags() == (old(self).spec_read(), write, old(self).spec_create(), old(self).spec_append(), old(self).spec_truncate()),
            *final(self) == *final(r),
    {
        self.write = write;
        self
    }

    /// Create the file if it does not exist yet.
    pub fn set_create(&mut self, create: bool) -> (r: &mut OpenOptions)
        ensures
            r.flags() == (old(self).spec_read(), old(self).spec_write(), create, old(self).spec_append(), old(self).spec_truncate()),
            *final(self) == *final(r),
    {
        self.create = create;
        self
    }

    /// Write at the end of the file.
    pub fn set_append(&mut self, append: bool) -> (r: &mut OpenOptions)
        ensures
            r.flags() == (old(self).spec_read(), old(self).spec_write(), old(self).spec_create(), append, old(self).spec_truncate()),
            *final(self) == *final(r),
    {
        self.append = append;
        self
    }

    /// Truncate the file to zero bytes once it is open.
    pub fn set_truncate(&mut self, truncate: bool) -> (r: &mut OpenOptions)
        ensures
            r.flags() == (old(self).spec_read(), old(self).spec_write(), old(self).spec_create(), old(self).spec_append(), truncate),
            *final(self) == *final(r),
    {
        self.truncate = truncate;
        self
    }

    pub fn read(&self) -> (r: bool)
        ensures
            r == self.spec_read(),
    {
        self.read
    }

    pub fn write(&self) -> (r: bool)
        ensures
            r == self.spec_write(),
    {
        self.write
    }

    pub fn create(&self) -> (r: bool)
        ensures
            r == self.spec_create(),
    {
        self.create
    }

    pub fn append(&self) -> (r: bool)
        ensures
            r == self.spec_append(),
    {
        self.append
    }

    pub fn truncate(&self) -> (r: bool)
        ensures
            r == self.spec_truncate(),
    {
        self.truncate
    }

    /// The options that the file operations use for each kind of access.
    pub fn for_access(access: FileAccess) -> (r: OpenOptions)
        ensures
            r.flags() == match access {
                FileAccess::Open => (true, false, false, false, false),
                FileAccess::Create => (false, true, true, false, true),
                FileAccess::Append => (false, true, true, true, false),
            },
    {
        let mut options = OpenOptions::new();
        match access {
            FileAccess::Open => {
                options.set_read(true);
            },
            FileAccess::Create => {
                options.set_create(true).set_write(true).set_truncate(true);
            },
            FileAccess::Append => {
                options.set_create(true).set_append(true).set_write(true);
            },
        }
        options
    }
}

impl Default for OpenOptions {
    fn default() -> (r: OpenOptions)
        ensures
            r.flags() == (false, false, false, false, false),
    {
        OpenOptions { read: false, write: false, create: false, append: false, truncate: false }
    }
}

} // verus!
