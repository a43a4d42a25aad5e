//! The list of active cameras.
//!
//! Pass nodes draw for named cameras; a camera only takes effect once its
//! name is registered here.  Registration is idempotent: a name is kept at
//! most once.

use vstd::prelude::*;

verus! {

/// Whether `name` is among the registered camera names.
pub open spec fn spec_contains_camera(cameras: Seq<Seq<char>>, name: Seq<char>) -> bool {
    exists|i: int| 0 <= i < cameras.len() && cameras[i] == name
}

/// The camera list after `name` is registered: unchanged when the name is
/// already there, else grown by it.
pub open spec fn spec_register_camera(cameras: Seq<Seq<char>>, name: Seq<char>) -> Seq<Seq<char>> {
    if spec_contains_camera(cameras, name) {
        cameras
    } else {
        cameras.push(name)
    }
}

/// The names of the cameras that are active, in registration order.
#[derive(Debug)]
pub struct ActiveCameras {
    pub cameras: Vec<String>,
}

impl View for ActiveCameras {
    type V = Seq<Seq<char>>;

    open spec fn view(&self) -> Seq<Seq<char>> {
        self.cameras@.map_values(|c: String| c@)
    }
}

impl ActiveCameras {
    /// No cameras registered.
    pub fn new() -> (r: ActiveCameras)
        ensures
            r@ == Seq::<Seq<char>>::empty(),
    {
        let r = ActiveCameras { cameras: Vec::new() };
        proof {
            assert(r@ =~= Seq::<Seq<char>>::empty());
        }
        r
    }

    /// Whether `name` is registered.
    pub fn contains(&self, name: &str) -> (r: bool)
        ensures
            r == spec_contains_camera(self@, name@),
    {
        let key: String = name.to_owned();
        let n = self.cameras.len();
        let mut i: usize = 0;
        while i < n
            invariant
                i <= n,
                n == self@.len(),
                key@ == name@,
                forall|j: int| 0 <= j < i ==> #[trigger] self@[j] != name@,
            decreases n - i,
        {
            if self.cameras[i] == key {
                proof {
                    assert(self@[i as int] == self.cameras@[i as int]@);
                }
                return true;
            }
            proof {
                assert(self@[i as int] == self.cameras@[i as int]@);
            }
            i = i + 1;
        }
        false
    }

    /// Registers `name`.  A name that is already registered is kept as it
    /// is, so the list never holds a name twice.
    pub fn add(&mut self, name: &str)
        ensures
            final(self)@ == spec_register_camera(old(self)@, name@),
            spec_contains_camera(final(self)@, name@),
    {
        if !self.contains(name) {
            self.cameras.push(name.to_owned());
            proof {
                assert(self@ =~= old(self)@.push(name@));
                assert(self@[old(self)@.len() as int] == name@);
            }
        }
    }
}

} // verus!
