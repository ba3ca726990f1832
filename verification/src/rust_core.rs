pub mod conj;
pub mod inc;
pub mod lazy_seq;

pub use conj::ConjFn;
pub use inc::IncFn;
pub use lazy_seq::LazySeqFn;
