//! The mount primitive: one mount request, turned from its structured form
//! into the flat arguments of the kernel's mount call.

use vstd::prelude::*;
use crate::options::{join_options, joined, lemma_joined_nul_free};
use crate::text::{all_nul_free, is_nul_free};

verus! {

/// A mount as the boot sequence describes it.
#[derive(Debug, PartialEq, Eq)]
pub struct MountRequest {
    /// What to mount: a device, a directory or a filesystem's name.
    pub source: String,
    /// Where to mount it.
    pub target: String,
    /// The filesystem type.
    pub fstype: String,
    /// The mount flags, a bit mask.
    pub flags: u64,
    /// The mount options, in order.
    pub options: Vec<String>,
}

/// A mount as the kernel takes it: the options are one string.
#[derive(Debug, PartialEq, Eq)]
pub struct MountCall {
    /// What to mount.
    pub source: String,
    /// Where to mount it.
    pub target: String,
    /// The filesystem type.
    pub fstype: String,
    /// The mount flags, a bit mask.
    pub flags: u64,
    /// The options, joined by commas; empty where there are none.
    pub data: String,
}

/// What a [`MountRequest`] holds.
#[verifier::ext_equal]
pub struct MountRequestView {
    pub source: Seq<char>,
    pub target: Seq<char>,
    pub fstype: Seq<char>,
    pub flags: u64,
    pub options: Seq<Seq<char>>,
}

/// What a [`MountCall`] holds.
#[verifier::ext_equal]
pub struct MountCallView {
    pub source: Seq<char>,
    pub target: Seq<char>,
    pub fstype: Seq<char>,
    pub flags: u64,
    pub data: Seq<char>,
}

impl View for MountRequest {
    type V = MountRequestView;

    open spec fn view(&self) -> MountRequestView {
        MountRequestView {
            source: self.source@,
            target: self.target@,
            fstype: self.fstype@,
            flags: self.flags,
            options: self.options.deep_view(),
        }
    }
}

impl View for MountCall {
    type V = MountCallView;

    open spec fn view(&self) -> MountCallView {
        MountCallView {
            source: self.source@,
            target: self.target@,
            fstype: self.fstype@,
            flags: self.flags,
            data: self.data@,
        }
    }
}

impl MountRequestView {
    /// Every text of the request can be handed to the kernel.
    pub open spec fn valid(self) -> bool {
        &&& is_nul_free(self.source)
        &&& is_nul_free(self.target)
        &&& is_nul_free(self.fstype)
        &&& all_nul_free(self.options)
    }

    /// The request in the kernel's calling convention.
    pub open spec fn flat(self) -> MountCallView {
        MountCallView {
            source: self.source,
            target: self.target,
            fstype: self.fstype,
            flags: self.flags,
            data: joined(self.options),
        }
    }
}

impl MountCallView {
    /// Every text of the call can be handed to the kernel.
    pub open spec fn valid(self) -> bool {
        &&& is_nul_free(self.source)
        &&& is_nul_free(self.target)
        &&& is_nul_free(self.fstype)
        &&& is_nul_free(self.data)
    }
}

/// The mount flag that asks for a bind mount.
pub open spec fn bind_flag() -> u64 {
    0x1000
}

/// The constant `libc::MS_BIND`, which the crate defines as `0x1000` for
/// every Linux target.
#[verifier::external_body]
pub(crate) fn ms_bind() -> (flag: u64)
    ensures
        flag == bind_flag(),
{
    u64::from(libc::MS_BIND)
}

/// Prepares one mount: the options are joined into the flat option string and
/// everything else is passed on as it is.
///
/// No text may hold a NUL character: `nul_free` and `nul_free_all` tell.
pub fn mount(
    src: &str,
    target: &str,
    fstype: &str,
    flags: u64,
    data: Vec<String>,
) -> (call: MountCall)
    requires
        is_nul_free(src@),
        is_nul_free(target@),
        is_nul_free(fstype@),
        all_nul_free(data.deep_view()),
    ensures
        call@ == (MountRequestView {
            source: src@,
            target: target@,
            fstype: fstype@,
            flags,
            options: data.deep_view(),
        }).flat(),
        call@.valid(),
{
    let joined_data = join_options(&data);
    proof {
        lemma_joined_nul_free(data.deep_view());
    }
    MountCall {
        source: String::from_str(src),
        target: String::from_str(target),
        fstype: String::from_str(fstype),
        flags,
        data: joined_data,
    }
}

} // verus!
