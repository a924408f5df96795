//! The settings of a session.

use crate::kernel::{
    FUSE_ASYNC_DIO,
    FUSE_ASYNC_READ,
    FUSE_ATOMIC_O_TRUNC,
    FUSE_AUTO_INVAL_DATA,
    FUSE_DONT_MASK,
    FUSE_DO_READDIRPLUS,
    FUSE_EXPORT_SUPPORT,
    FUSE_FLOCK_LOCKS,
    FUSE_HANDLE_KILLPRIV,
    FUSE_PARALLEL_DIROPS,
    FUSE_POSIX_ACL,
    FUSE_POSIX_LOCKS,
    FUSE_READDIRPLUS_AUTO,
    FUSE_WRITEBACK_CACHE,
};
use vstd::prelude::*;

verus! {

/// Every capability that this library knows.
pub const ALL_CAPABILITIES: u32 = FUSE_ASYNC_READ
    | FUSE_ATOMIC_O_TRUNC
    | FUSE_AUTO_INVAL_DATA
    | FUSE_ASYNC_DIO
    | FUSE_PARALLEL_DIROPS
    | FUSE_HANDLE_KILLPRIV
    | FUSE_POSIX_LOCKS
    | FUSE_FLOCK_LOCKS
    | FUSE_EXPORT_SUPPORT
    | FUSE_DONT_MASK
    | FUSE_WRITEBACK_CACHE
    | FUSE_POSIX_ACL
    | FUSE_DO_READDIRPLUS
    | FUSE_READDIRPLUS_AUTO;

/// The capabilities that are enabled unless the user says otherwise.
pub const DEFAULT_CAPABILITIES: u32 = FUSE_ASYNC_READ
    | FUSE_PARALLEL_DIROPS
    | FUSE_AUTO_INVAL_DATA
    | FUSE_HANDLE_KILLPRIV
    | FUSE_ASYNC_DIO
    | FUSE_ATOMIC_O_TRUNC;

/// The default size limit of a write request.
pub const DEFAULT_MAX_WRITE: u32 = 16777216;

/// Capability flags to control the behavior of the kernel driver.
#[derive(Clone, Copy, PartialEq, Eq, Structural)]
pub struct CapabilityFlags {
    bits: u32,
}

impl View for CapabilityFlags {
    type V = u32;

    closed spec fn view(&self) -> u32 {
        self.bits
    }
}

impl CapabilityFlags {
    /// Only known capabilities are set.
    #[verifier::type_invariant]
    pub open spec fn wf(self) -> bool {
        self@ & ALL_CAPABILITIES == self@
    }

    /// The filesystem supports asynchronous read requests.
    ///
    /// Enabled by default.
    pub fn async_read() -> (flags: Self)
        ensures
            flags.wf(),
            flags@ == FUSE_ASYNC_READ,
    {
        proof {
            lemma_known();
        }
        CapabilityFlags { bits: FUSE_ASYNC_READ }
    }

    /// The filesystem supports the `O_TRUNC` open flag.
    ///
    /// Enabled by default.
    pub fn atomic_o_trunc() -> (flags: Self)
        ensures
            flags.wf(),
            flags@ == FUSE_ATOMIC_O_TRUNC,
    {
        proof {
            lemma_known();
        }
        CapabilityFlags { bits: FUSE_ATOMIC_O_TRUNC }
    }

    /// The kernel checks the validity of attributes on every read.
    ///
    /// Enabled by default.
    pub fn auto_inval_data() -> (flags: Self)
        ensures
            flags.wf(),
            flags@ == FUSE_AUTO_INVAL_DATA,
    {
        proof {
            lemma_known();
        }
        CapabilityFlags { bits: FUSE_AUTO_INVAL_DATA }
    }

    /// The filesystem supports asynchronous direct I/O submission.
    ///
    /// Enabled by default.
    pub fn async_dio() -> (flags: Self)
        ensures
            flags.wf(),
            flags@ == FUSE_ASYNC_DIO,
    {
        proof {
            lemma_known();
        }
        CapabilityFlags { bits: FUSE_ASYNC_DIO }
    }

    /// The kernel supports parallel directory operations.
    ///
    /// Enabled by default.
    pub fn parallel_dirops() -> (flags: Self)
        ensures
            flags.wf(),
            flags@ == FUSE_PARALLEL_DIROPS,
    {
        proof {
            lemma_known();
        }
        CapabilityFlags { bits: FUSE_PARALLEL_DIROPS }
    }

    /// The filesystem is responsible for unsetting setuid and setgid bits when a file is written,
    /// truncated, or its owner is changed.
    ///
    /// Enabled by default.
    pub fn handle_killpriv() -> (flags: Self)
        ensures
            flags.wf(),
            flags@ == FUSE_HANDLE_KILLPRIV,
    {
        proof {
            lemma_known();
        }
        CapabilityFlags { bits: FUSE_HANDLE_KILLPRIV }
    }

    /// The filesystem supports the POSIX-style file lock.
    pub fn posix_locks() -> (flags: Self)
        ensures
            flags.wf(),
            flags@ == FUSE_POSIX_LOCKS,
    {
        proof {
            lemma_known();
        }
        CapabilityFlags { bits: FUSE_POSIX_LOCKS }
    }

    /// The filesystem supports the `flock` handling.
    pub fn flock_locks() -> (flags: Self)
        ensures
            flags.wf(),
            flags@ == FUSE_FLOCK_LOCKS,
    {
        proof {
            lemma_known();
        }
        CapabilityFlags { bits: FUSE_FLOCK_LOCKS }
    }

    /// The filesystem supports lookups of `"."` and `".."`.
    pub fn export_support() -> (flags: Self)
        ensures
            flags.wf(),
            flags@ == FUSE_EXPORT_SUPPORT,
    {
        proof {
            lemma_known();
        }
        CapabilityFlags { bits: FUSE_EXPORT_SUPPORT }
    }

    /// The kernel should not apply the umask to the file mode on create operations.
    pub fn dont_mask() -> (flags: Self)
        ensures
            flags.wf(),
            flags@ == FUSE_DONT_MASK,
    {
        proof {
            lemma_known();
        }
        CapabilityFlags { bits: FUSE_DONT_MASK }
    }

    /// The writeback caching should be enabled.
    pub fn writeback_cache() -> (flags: Self)
        ensures
            flags.wf(),
            flags@ == FUSE_WRITEBACK_CACHE,
    {
        proof {
            lemma_known();
        }
        CapabilityFlags { bits: FUSE_WRITEBACK_CACHE }
    }

    /// The filesystem supports POSIX access control lists.
    pub fn posix_acl() -> (flags: Self)
        ensures
            flags.wf(),
            flags@ == FUSE_POSIX_ACL,
    {
        proof {
            lemma_known();
        }
        CapabilityFlags { bits: FUSE_POSIX_ACL }
    }

    /// The filesystem supports `readdirplus` operations.
    pub fn readdirplus() -> (flags: Self)
        ensures
            flags.wf(),
            flags@ == FUSE_DO_READDIRPLUS,
    {
        proof {
            lemma_known();
        }
        CapabilityFlags { bits: FUSE_DO_READDIRPLUS }
    }

    /// The kernel uses the adaptive `readdirplus`.
    pub fn readdirplus_auto() -> (flags: Self)
        ensures
            flags.wf(),
            flags@ == FUSE_READDIRPLUS_AUTO,
    {
        proof {
            lemma_known();
        }
        CapabilityFlags { bits: FUSE_READDIRPLUS_AUTO }
    }

    /// Every known capability.
    pub fn all() -> (flags: Self)
        ensures
            flags.wf(),
            flags@ == ALL_CAPABILITIES,
    {
        proof {
            lemma_known();
        }
        CapabilityFlags { bits: ALL_CAPABILITIES }
    }

    /// No capability.
    pub fn empty() -> (flags: Self)
        ensures
            flags.wf(),
            flags@ == 0,
    {
        proof {
            lemma_known();
        }
        CapabilityFlags { bits: 0 }
    }

    /// The flags as bits.
    pub fn bits(&self) -> (bits: u32)
        ensures
            bits == self@,
            bits & ALL_CAPABILITIES == bits,
    {
        proof {
            use_type_invariant(self);
        }
        self.bits
    }

    /// The known capabilities among `bits`.
    pub fn from_bits_truncate(bits: u32) -> (flags: Self)
        ensures
            flags.wf(),
            flags@ == bits & ALL_CAPABILITIES,
    {
        let known: u32 = bits & ALL_CAPABILITIES;
        assert(known & ALL_CAPABILITIES == known) by (bit_vector)
            requires
                known == bits & ALL_CAPABILITIES,
        ;
        CapabilityFlags { bits: known }
    }

    /// Whether every flag of `other` is set.
    pub fn contains(&self, other: Self) -> (yes: bool)
        ensures
            yes <==> self@ & other@ == other@,
    {
        self.bits & other.bits == other.bits
    }

    /// The flags that are set on both sides.
    pub fn intersection(self, other: Self) -> (flags: Self)
        ensures
            flags@ == self@ & other@,
            flags.wf(),
    {
        proof {
            use_type_invariant(&self);
        }
        let (a, b): (u32, u32) = (self.bits, other.bits);
        assert(a & ALL_CAPABILITIES == a ==> (a & b) & ALL_CAPABILITIES == a & b) by (bit_vector);
        CapabilityFlags { bits: a & b }
    }

    /// The flags that are set on either side.
    pub fn union(self, other: Self) -> (flags: Self)
        ensures
            flags@ == self@ | other@,
            flags.wf(),
    {
        proof {
            use_type_invariant(&self);
            use_type_invariant(&other);
        }
        let (a, b): (u32, u32) = (self.bits, other.bits);
        assert((a & ALL_CAPABILITIES == a && b & ALL_CAPABILITIES == b) ==> (a | b)
            & ALL_CAPABILITIES == a | b) by (bit_vector);
        CapabilityFlags { bits: a | b }
    }

    /// Sets the flags of `other`.
    pub fn insert(&mut self, other: Self)
        ensures
            final(self)@ == old(self)@ | other@,
            final(self).wf(),
    {
        *self = self.union(other);
    }

    /// Clears the flags of `other`.
    pub fn remove(&mut self, other: Self)
        ensures
            final(self)@ == old(self)@ & !other@,
            final(self).wf(),
    {
        proof {
            use_type_invariant(&*self);
        }
        let (a, b): (u32, u32) = (self.bits, other.bits);
        assert(a & ALL_CAPABILITIES == a ==> (a & !b) & ALL_CAPABILITIES == a & !b)
            by (bit_vector);
        self.bits = a & !b;
    }
}

impl Default for CapabilityFlags {
    fn default() -> (flags: CapabilityFlags)
        ensures
            flags.wf(),
            flags@ == DEFAULT_CAPABILITIES,
    {
        proof {
            lemma_known();
        }
        CapabilityFlags { bits: DEFAULT_CAPABILITIES }
    }
}

/// Of the capabilities, these six are enabled by default, and no other.
pub proof fn law_default_capabilities()
    by (bit_vector)
    ensures
        DEFAULT_CAPABILITIES & FUSE_ASYNC_READ == FUSE_ASYNC_READ,
        DEFAULT_CAPABILITIES & FUSE_ATOMIC_O_TRUNC == FUSE_ATOMIC_O_TRUNC,
        DEFAULT_CAPABILITIES & FUSE_AUTO_INVAL_DATA == FUSE_AUTO_INVAL_DATA,
        DEFAULT_CAPABILITIES & FUSE_ASYNC_DIO == FUSE_ASYNC_DIO,
        DEFAULT_CAPABILITIES & FUSE_PARALLEL_DIROPS == FUSE_PARALLEL_DIROPS,
        DEFAULT_CAPABILITIES & FUSE_HANDLE_KILLPRIV == FUSE_HANDLE_KILLPRIV,
        DEFAULT_CAPABILITIES & FUSE_POSIX_LOCKS == 0,
        DEFAULT_CAPABILITIES & FUSE_FLOCK_LOCKS == 0,
        DEFAULT_CAPABILITIES & FUSE_EXPORT_SUPPORT == 0,
        DEFAULT_CAPABILITIES & FUSE_DONT_MASK == 0,
        DEFAULT_CAPABILITIES & FUSE_WRITEBACK_CACHE == 0,
        DEFAULT_CAPABILITIES & FUSE_POSIX_ACL == 0,
        DEFAULT_CAPABILITIES & FUSE_DO_READDIRPLUS == 0,
        DEFAULT_CAPABILITIES & FUSE_READDIRPLUS_AUTO == 0,
{
}

/// Every named set of capabilities is known.
proof fn lemma_known()
    by (bit_vector)
    ensures
        FUSE_ASYNC_READ & ALL_CAPABILITIES == FUSE_ASYNC_READ,
        FUSE_ATOMIC_O_TRUNC & ALL_CAPABILITIES == FUSE_ATOMIC_O_TRUNC,
        FUSE_AUTO_INVAL_DATA & ALL_CAPABILITIES == FUSE_AUTO_INVAL_DATA,
        FUSE_ASYNC_DIO & ALL_CAPABILITIES == FUSE_ASYNC_DIO,
        FUSE_PARALLEL_DIROPS & ALL_CAPABILITIES == FUSE_PARALLEL_DIROPS,
        FUSE_HANDLE_KILLPRIV & ALL_CAPABILITIES == FUSE_HANDLE_KILLPRIV,
        FUSE_POSIX_LOCKS & ALL_CAPABILITIES == FUSE_POSIX_LOCKS,
        FUSE_FLOCK_LOCKS & ALL_CAPABILITIES == FUSE_FLOCK_LOCKS,
        FUSE_EXPORT_SUPPORT & ALL_CAPABILITIES == FUSE_EXPORT_SUPPORT,
        FUSE_DONT_MASK & ALL_CAPABILITIES == FUSE_DONT_MASK,
        FUSE_WRITEBACK_CACHE & ALL_CAPABILITIES == FUSE_WRITEBACK_CACHE,
        FUSE_POSIX_ACL & ALL_CAPABILITIES == FUSE_POSIX_ACL,
        FUSE_DO_READDIRPLUS & ALL_CAPABILITIES == FUSE_DO_READDIRPLUS,
        FUSE_READDIRPLUS_AUTO & ALL_CAPABILITIES == FUSE_READDIRPLUS_AUTO,
        0u32 & ALL_CAPABILITIES == 0,
        ALL_CAPABILITIES & ALL_CAPABILITIES == ALL_CAPABILITIES,
        DEFAULT_CAPABILITIES & ALL_CAPABILITIES == DEFAULT_CAPABILITIES,
{
}

/// The values that a [`Config`] stands for.
#[derive(Debug, Clone, Copy, PartialEq, Eq, Structural)]
pub struct Settings {
    pub max_readahead: u32,
    pub flags: u32,
    pub max_background: u16,
    pub congestion_threshold: u16,
    pub max_write: u32,
    pub time_gran: u32,
    pub max_pages: u16,
}

/// The settings of a session.
pub struct Config {
    max_readahead: u32,
    flags: CapabilityFlags,
    max_background: u16,
    congestion_threshold: u16,
    max_write: u32,
    time_gran: u32,
    max_pages: u16,
}

impl View for Config {
    type V = Settings;

    closed spec fn view(&self) -> Settings {
        Settings {
            max_readahead: self.max_readahead,
            flags: self.flags@,
            max_background: self.max_background,
            congestion_threshold: self.congestion_threshold,
            max_write: self.max_write,
            time_gran: self.time_gran,
            max_pages: self.max_pages,
        }
    }
}

/// The settings of a session whose user changes none.
pub open spec fn default_settings() -> Settings {
    Settings {
        max_readahead: u32::MAX,
        flags: DEFAULT_CAPABILITIES,
        max_background: 0,
        congestion_threshold: 0,
        max_write: DEFAULT_MAX_WRITE,
        time_gran: 1,
        max_pages: 0,
    }
}

impl Default for Config {
    fn default() -> (config: Config)
        ensures
            config@ == default_settings(),
            config.capabilities().wf(),
    {
        Config {
            max_readahead: u32::MAX,
            flags: CapabilityFlags::default(),
            max_background: 0,
            congestion_threshold: 0,
            max_write: DEFAULT_MAX_WRITE,
            time_gran: 1,
            max_pages: 0,
        }
    }
}

impl Config {
    /// The capability flags of this configuration.
    pub closed spec fn capabilities(&self) -> CapabilityFlags {
        self.flags
    }

    /// The values of the settings.
    pub fn settings(&self) -> (settings: Settings)
        ensures
            settings == self@,
            settings.flags & ALL_CAPABILITIES == settings.flags,
    {
        Settings {
            max_readahead: self.max_readahead,
            flags: self.flags.bits(),
            max_background: self.max_background,
            congestion_threshold: self.congestion_threshold,
            max_write: self.max_write,
            time_gran: self.time_gran,
            max_pages: self.max_pages,
        }
    }

    /// Return a reference to the capability flags.
    pub fn flags(&mut self) -> (flags: &mut CapabilityFlags)
        ensures
            *flags == old(self).capabilities(),
            flags@ == old(self)@.flags,
            final(self).capabilities() == *final(flags),
            final(self)@ == (Settings { flags: final(flags)@, ..old(self)@ }),
    {
        &mut self.flags
    }

    /// Set the maximum readahead.
    pub fn max_readahead(&mut self, value: u32) -> (this: &mut Self)
        ensures
            this@ == (Settings { max_readahead: value, ..old(self)@ }),
            this.capabilities() == old(self).capabilities(),
            *final(self) == *final(this),
    {
        self.max_readahead = value;
        self
    }

    /// Set the maximum size of the write buffer.
    pub fn max_write(&mut self, value: u32) -> (this: &mut Self)
        ensures
            this@ == (Settings { max_write: value, ..old(self)@ }),
            this.capabilities() == old(self).capabilities(),
            *final(self) == *final(this),
    {
        self.max_write = value;
        self
    }

    /// Set the maximum number of pending *background* requests.
    pub fn max_background(&mut self, max_background: u16) -> (this: &mut Self)
        ensures
            this@ == (Settings { max_background, ..old(self)@ }),
            this.capabilities() == old(self).capabilities(),
            *final(self) == *final(this),
    {
        self.max_background = max_background;
        self
    }

    /// Set the threshold number of pending background requests
    /// that the kernel marks the filesystem as *congested*.
    ///
    /// If the setting value is 0, the value is automatically
    /// calculated by using max_background: it is three quarters of it.
    pub fn congestion_threshold(&mut self, threshold: u16) -> (this: &mut Self)
        requires
            threshold <= old(self)@.max_background,
        ensures
            this@ == (Settings {
                congestion_threshold: if threshold == 0 {
                    (old(self)@.max_background * 3 / 4) as u16
                } else {
                    threshold
                },
                ..old(self)@
            }),
            this@.congestion_threshold <= this@.max_background,
            this.capabilities() == old(self).capabilities(),
            *final(self) == *final(this),
    {
        if threshold == 0 {
            self.congestion_threshold = (self.max_background as u32 * 3 / 4) as u16;
        } else {
            self.congestion_threshold = threshold;
        }
        self
    }

    /// Set the timestamp resolution supported by the filesystem.
    ///
    /// The setting value has the nanosecond unit and should be a power of 10.
    ///
    /// The default value is 1.
    pub fn time_gran(&mut self, time_gran: u32) -> (this: &mut Self)
        ensures
            this@ == (Settings { time_gran, ..old(self)@ }),
            this.capabilities() == old(self).capabilities(),
            *final(self) == *final(this),
    {
        self.time_gran = time_gran;
        self
    }
}

/// The flags among the settings are the capabilities of the configuration, so where these are known
/// ones, the settings ask for known ones only.
pub proof fn law_config_flags(config: Config)
    ensures
        config.capabilities()@ == config@.flags,
        config.capabilities().wf() <==> config@.flags & ALL_CAPABILITIES == config@.flags,
{
}

/// The capabilities as the kernel numbers them.
pub proof fn law_capability_bits()
    by (bit_vector)
    ensures
        ALL_CAPABILITIES == 0x1df45b,
        DEFAULT_CAPABILITIES == 0xc9009,
        FUSE_ASYNC_READ == 0x1,
        FUSE_POSIX_LOCKS == 0x2,
        FUSE_ATOMIC_O_TRUNC == 0x8,
        FUSE_EXPORT_SUPPORT == 0x10,
        FUSE_DONT_MASK == 0x40,
        FUSE_FLOCK_LOCKS == 0x400,
        FUSE_AUTO_INVAL_DATA == 0x1000,
        FUSE_DO_READDIRPLUS == 0x2000,
        FUSE_READDIRPLUS_AUTO == 0x4000,
        FUSE_ASYNC_DIO == 0x8000,
        FUSE_WRITEBACK_CACHE == 0x10000,
        FUSE_PARALLEL_DIROPS == 0x40000,
        FUSE_HANDLE_KILLPRIV == 0x80000,
        FUSE_POSIX_ACL == 0x100000,
{
}

/// A session whose user changes nothing limits no readahead, asks for the default capabilities,
/// leaves the background requests to the kernel, and takes writes of up to 16 MiB and timestamps to
/// the nanosecond.
pub proof fn law_default_settings()
    ensures
        default_settings().max_readahead == 0xffff_ffff,
        default_settings().flags == 0xc9009,
        default_settings().max_background == 0,
        default_settings().congestion_threshold == 0,
        default_settings().max_write == 16 * 1024 * 1024,
        default_settings().time_gran == 1,
        default_settings().max_pages == 0,
{
    law_capability_bits();
}

/// Flags are well formed where they hold no bit beyond the known capabilities.
pub proof fn law_known_flags(flags: CapabilityFlags)
    ensures
        flags.wf() <==> flags@ & 0xffe20ba4 == 0,
{
    law_capability_bits();
    let bits = flags@;
    assert(bits & ALL_CAPABILITIES == bits <==> bits & 0xffe20ba4 == 0) by (bit_vector);
}

} // verus!
