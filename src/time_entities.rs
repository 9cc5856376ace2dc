//! Time entities: time stamps, stop watches and the collection that owns them.
use vstd::prelude::*;

pub mod stop_watch;
pub mod time_entities_controller;
pub mod time_stamp;
pub mod time_stamp_errors;

verus! {

/// Anything tracked under a title.
pub trait TimeEntity {
    /// The entity's title.
    spec fn title_view(&self) -> Seq<char>;

    fn get_title(&self) -> (r: &str)
        ensures
            r@ == self.title_view(),
    ;
}

} // verus!
