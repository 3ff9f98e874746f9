//! The owned host image of a device communicator.
//!
//! `ncclDevCommCreate` fills a host image of type `Image` (the C struct
//! `ncclDevComm_t`); kernels use a byte copy of it placed on the device.  This
//! module decides whether a freshly written image may be kept, describes the
//! layout a device copy needs, and makes sure the NCCL-side resources are
//! destroyed at most once.  The NCCL calls themselves are handed in by the
//! caller as closures.

use crate::requirements::NcclHeaders;
use vstd::prelude::*;

verus! {

/// Size and alignment of a device copy; always a valid `std::alloc::Layout`.
#[derive(Clone, Copy, Debug, PartialEq, Eq)]
pub struct CopyLayout {
    size: usize,
    align: usize,
}

impl CopyLayout {
    #[verifier::type_invariant]
    spec fn is_valid(self) -> bool {
        vstd::layout::valid_layout(self.size, self.align)
    }

    /// Number of bytes of the layout.
    pub closed spec fn size_spec(self) -> usize {
        self.size
    }

    /// Alignment of the layout.
    pub closed spec fn align_spec(self) -> usize {
        self.align
    }

    /// Number of bytes of the layout; together with [`Self::align`] it meets
    /// every condition of `Layout::from_size_align`.
    pub fn size(&self) -> (size: usize)
        ensures
            size == self.size_spec(),
            vstd::layout::valid_layout(self.size_spec(), self.align_spec()),
    {
        proof {
            use_type_invariant(self);
        }
        self.size
    }

    /// Alignment of the layout; a power of two.
    pub fn align(&self) -> (align: usize)
        ensures
            align == self.align_spec(),
            vstd::layout::valid_layout(self.size_spec(), self.align_spec()),
    {
        proof {
            use_type_invariant(self);
        }
        self.align
    }
}

/// How the NCCL call that wrote a device-communicator image completed.
pub enum CreationCompletion<E> {
    /// The call and any deferred work finished successfully.
    Complete,
    /// The call failed before any deferred work was queued.
    SynchronousFailure(E),
    /// Deferred work ran to a failure; nothing targets the image any more.
    TerminalFailure(E),
    /// The outcome is unknown; deferred work may still write to the image.
    Uncertain(E),
}

/// Why a device communicator was not created.
#[derive(Debug, PartialEq, Eq)]
pub enum CreationError<E> {
    /// NCCL reported an error.
    Nccl(E),
    /// NCCL reported success but left the image's sentinel fields unset.
    ImageNotInitialized { magic: u32, version: u32 },
}

/// An image whose `magic` and `version` fields hold what the headers define
/// was written by a compatible NCCL.
pub open spec fn sentinels_match(headers: NcclHeaders, magic: u32, version: u32) -> bool {
    magic == headers.api_magic && version == headers.version_code
}

/// The sentinels match exactly when both equal the headers' values: any other
/// magic, and any other version, newer or older, does not match.
pub proof fn law_sentinels_match(headers: NcclHeaders, magic: u32, version: u32)
    ensures
        sentinels_match(headers, magic, version) <==> (magic == headers.api_magic
            && version == headers.version_code),
        version != headers.version_code ==> !sentinels_match(headers, magic, version),
        magic != headers.api_magic ==> !sentinels_match(headers, magic, version),
{
}

/// An owned host image of `ncclDevComm_t` and its NCCL-side resources.
///
/// Only [`Self::destroy`] releases the NCCL-side resources.  Dropping an owner
/// without calling it frees the host image but leaves those resources alive;
/// a caller that wants destruction on drop wraps the owner in a type whose
/// `Drop` calls [`Self::destroy`].
pub struct DeviceCommunicator<'comm, C, Image> {
    communicator: &'comm C,
    raw: Box<Image>,
}

impl<'comm, C, Image> DeviceCommunicator<'comm, C, Image> {
    /// The host image written by NCCL.
    pub closed spec fn image_spec(&self) -> Image {
        *self.raw
    }

    /// The host communicator that owns the NCCL-side resources.
    pub closed spec fn communicator_spec(&self) -> &'comm C {
        self.communicator
    }

    /// Number of bytes that must be copied for device use.
    pub fn byte_len() -> (len: usize)
        ensures
            len as nat == vstd::layout::size_of::<Image>(),
    {
        core::mem::size_of::<Image>()
    }

    /// Required alignment for a typed device-side image.
    pub fn copy_alignment() -> (align: usize)
        ensures
            align as nat == vstd::layout::align_of::<Image>(),
    {
        core::mem::align_of::<Image>()
    }

    /// The layout of a device copy: [`Self::byte_len`] bytes aligned to
    /// [`Self::copy_alignment`].  Both values come from one concrete type, so
    /// they always form a valid layout.
    pub fn copy_layout() -> (layout: CopyLayout)
        ensures
            layout.size_spec() as nat == vstd::layout::size_of::<Image>(),
            layout.align_spec() as nat == vstd::layout::align_of::<Image>(),
            vstd::layout::valid_layout(layout.size_spec(), layout.align_spec()),
    {
        vstd::layout::layout_for_type_is_valid::<Image>();
        CopyLayout { size: Self::byte_len(), align: Self::copy_alignment() }
    }

    /// Keep the image written by NCCL, or report why it cannot be kept.
    ///
    /// Only after the call completed is the image read: `sentinels` returns
    /// its `magic` and `version` fields, and the image is kept when they hold
    /// what the headers define.  When the outcome is uncertain, NCCL may still
    /// write to the image, so it is neither read nor freed but leaked.
    pub fn from_created_image<E, F: FnOnce(&Image) -> (u32, u32)>(
        communicator: &'comm C,
        headers: &NcclHeaders,
        completion: CreationCompletion<E>,
        image: Box<Image>,
        sentinels: F,
    ) -> (result: Result<Self, CreationError<E>>)
        requires
            completion is Complete ==> sentinels.requires((&*image,)),
        ensures
            match completion {
                CreationCompletion::Complete => exists|magic: u32, version: u32|
                    {
                        &&& #[trigger] sentinels.ensures((&*image,), (magic, version))
                        &&& if magic == headers.api_magic && version == headers.version_code {
                            &&& result matches Ok(created)
                            &&& created.image_spec() == *image
                            &&& created.communicator_spec() == communicator
                        } else {
                            result == Err::<Self, CreationError<E>>(
                                CreationError::ImageNotInitialized { magic, version },
                            )
                        }
                    },
                CreationCompletion::SynchronousFailure(error) => result == Err::<
                    Self,
                    CreationError<E>,
                >(CreationError::Nccl(error)),
                CreationCompletion::TerminalFailure(error) => result == Err::<
                    Self,
                    CreationError<E>,
                >(CreationError::Nccl(error)),
                CreationCompletion::Uncertain(error) => result == Err::<Self, CreationError<E>>(
                    CreationError::Nccl(error),
                ),
            },
    {
        match completion {
            CreationCompletion::Complete => {},
            CreationCompletion::SynchronousFailure(error) => {
                return Err(CreationError::Nccl(error));
            },
            CreationCompletion::TerminalFailure(error) => {
                return Err(CreationError::Nccl(error));
            },
            CreationCompletion::Uncertain(error) => {
                // Deferred NCCL work may still write to the image: never free it.
                let _ = core::mem::ManuallyDrop::new(image);
                return Err(CreationError::Nccl(error));
            },
        }
        let (magic, version) = sentinels(&*image);
        if magic != headers.api_magic || version != headers.version_code {
            return Err(CreationError::ImageNotInitialized { magic, version });
        }
        Ok(DeviceCommunicator { communicator, raw: image })
    }

    /// The complete host image, for a host-to-device copy.  Every owner holds
    /// its image until [`Self::destroy`] consumes the owner.
    pub fn host_image(&self) -> (image: &Image)
        ensures
            *image == self.image_spec(),
    {
        &*self.raw
    }

    /// The host communicator that owns the NCCL-side resources.
    pub fn communicator(&self) -> (communicator: &'comm C)
        ensures
            communicator == self.communicator_spec(),
    {
        self.communicator
    }

    /// Destroy the NCCL-side resources and report errors.
    ///
    /// The owner is consumed and its image handed to `nccl_destroy`, so the
    /// resources cannot be destroyed twice, whatever `nccl_destroy` reports.
    pub fn destroy<E, F: FnOnce(&'comm C, Box<Image>) -> Result<(), E>>(
        self,
        nccl_destroy: F,
    ) -> (result: Result<(), E>)
        requires
            nccl_destroy.requires((self.communicator_spec(), Box::new(self.image_spec()))),
        ensures
            nccl_destroy.ensures(
                (self.communicator_spec(), Box::new(self.image_spec())),
                result,
            ),
    {
        let DeviceCommunicator { communicator, raw } = self;
        nccl_destroy(communicator, raw)
    }
}

} // verus!
