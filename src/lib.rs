use vstd::prelude::*;

pub mod act;
pub mod decide;
pub mod driver;
pub mod engine;
pub mod settings;
pub mod version;
pub mod watcher;

verus! {

} // verus!
