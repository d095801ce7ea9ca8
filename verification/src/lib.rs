//! Narrow owning handles for type-erased values.
//!
//! A `NarrowBox<D>` owns one heap block and consists of a single machine
//! word: the block's address. The block itself carries a descriptor header
//! in front of the payload, so that a bare address is enough to recover the
//! payload's shape and behaviour when the handle's target `D` is abstract.
//! Conventional wide handles pay two words per slot (address plus
//! descriptor); storing the descriptor in the block halves the handle.
//!
//! The heap, the blocks, the descriptor registry and the handle operations
//! are all verified. Erasure writes the descriptor that `synthesize_metadata`
//! derives from the concrete/abstract type pair alone; every later access
//! and the final destruction recover the payload through that descriptor.

pub mod descriptor;
pub mod heap;
pub mod laws;
pub mod narrow_box;
pub mod payload;
pub mod registry;
pub mod target;

pub use descriptor::Descriptor;
pub use heap::Block;
pub use heap::Heap;
pub use narrow_box::NarrowBox;
pub use payload::FsFailure;
pub use payload::Ints4;
pub use payload::Ints6;
pub use payload::Kind;
pub use payload::ParseFailure;
pub use payload::Payload;
pub use registry::Diagnosable;
pub use registry::IntSeq;
pub use registry::int_seq_view;
pub use target::Concrete;
pub use target::Target;
pub use target::synthesize_metadata;
