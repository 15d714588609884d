//! The boot source of the microvm and the kernel command line built
//! from it.

use vstd::prelude::*;
use vstd::slice::slice_index_get;
use vstd::slice::slice_to_vec;

use crate::layout;

verus! {

/// Why the kernel command line was refused.
#[derive(Clone, Copy, Debug, PartialEq, Eq, Structural)]
pub enum ConfigError {
    /// The command line, terminating NUL included, exceeds
    /// `CMDLINE_MAX_SIZE` bytes.
    CmdlineTooLong,
    /// The command line holds an interior NUL byte.
    CmdlineInteriorNul,
}

/// Strongly typed data structure used to configure the boot source of
/// the microvm.
#[derive(Debug, Default)]
pub struct BootSourceConfig {
    /// Path of the kernel image.
    pub kernel_image_path: String,
    /// Path of the initrd, if there is one.
    pub initrd_path: Option<String>,
    /// The boot arguments to pass to the kernel.  When this field is
    /// unset, the default kernel command line is used.
    pub boot_args: Option<String>,
}

/// The characters of the command line the configuration asks for: the
/// caller's boot arguments, or the default line.
pub open spec fn spec_cmdline_chars(cfg: &BootSourceConfig) -> Seq<char> {
    if cfg.boot_args is Some {
        cfg.boot_args->0@
    } else {
        layout::spec_default_kernel_cmdline()
    }
}

/// The UTF-8 bytes of the command line the configuration asks for,
/// before NUL termination.
pub open spec fn spec_cmdline_bytes(cfg: &BootSourceConfig) -> Seq<u8> {
    vstd::utf8::encode_utf8(spec_cmdline_chars(cfg))
}

impl BootSourceConfig {
    /// Builds the NUL-terminated kernel command line and its byte count.
    ///
    /// The emitted bytes are the configured line followed by one NUL;
    /// their count is the line's byte length plus one and never exceeds
    /// `CMDLINE_MAX_SIZE`.  The line is refused exactly when it is too
    /// long or holds an interior NUL.
    pub fn to_kernel_cmdline(&self) -> (r: Result<(Vec<u8>, usize), ConfigError>)
        ensures
            r is Ok <==> (spec_cmdline_bytes(self).len() + 1 <= layout::CMDLINE_MAX_SIZE
                && !spec_cmdline_bytes(self).contains(0u8)),
            (r matches Err(ConfigError::CmdlineTooLong)) <==> spec_cmdline_bytes(self).len() + 1
                > layout::CMDLINE_MAX_SIZE,
            (r matches Err(ConfigError::CmdlineInteriorNul)) <==> (spec_cmdline_bytes(self).len()
                + 1 <= layout::CMDLINE_MAX_SIZE && spec_cmdline_bytes(self).contains(0u8)),
            r is Ok ==> (r->Ok_0).0@ =~= spec_cmdline_bytes(self).push(0u8),
            r is Ok ==> (r->Ok_0).1 == spec_cmdline_bytes(self).len() + 1,
            r is Ok ==> (r->Ok_0).1 <= layout::CMDLINE_MAX_SIZE,
    {
        let s: &str = match &self.boot_args {
            Some(args) => args.as_str(),
            None => layout::default_kernel_cmdline(),
        };
        let b: &[u8] = s.as_bytes();
        let n: usize = b.len();

        if n >= layout::CMDLINE_MAX_SIZE {
            return Err(ConfigError::CmdlineTooLong);
        }

        let mut i: usize = 0;
        while i < n
            invariant
                i <= n,
                n == b@.len(),
                n < layout::CMDLINE_MAX_SIZE,
                b@ == spec_cmdline_bytes(self),
                forall|j: int| 0 <= j < i ==> b@[j] != 0,
            decreases n - i,
        {
            if *slice_index_get(b, i) == 0 {
                assert(spec_cmdline_bytes(self).contains(0u8)) by {
                    assert(spec_cmdline_bytes(self)[i as int] == 0u8);
                }
                return Err(ConfigError::CmdlineInteriorNul);
            }
            i = i + 1;
        }

        proof {
            if spec_cmdline_bytes(self).contains(0u8) {
                let j = choose|j: int|
                    0 <= j < spec_cmdline_bytes(self).len() && spec_cmdline_bytes(self)[j] == 0u8;
                assert(b@[j] != 0);
            }
        }

        let mut v = slice_to_vec(b);
        v.push(0);
        let size = v.len();
        Ok((v, size))
    }
}

} // verus!
