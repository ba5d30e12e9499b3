//! The collection of all hwmons.

use crate::hwmon::Hwmon;
use crate::text::{decimal, same_text, spec_join};
use vstd::prelude::*;

verus! {

/// The directory of the hwmon with the given index below `root`, such as
/// `/sys/class/hwmon/hwmon0`.
pub open spec fn spec_hwmon_dir(root: Seq<char>, index: u16) -> Seq<char> {
    spec_join(root, "hwmon"@ + decimal(index as nat))
}

/// The positions of the hwmons of `hwmons` whose name is `name`, in order.
pub open spec fn positions_named(hwmons: Seq<Hwmon>, name: Seq<char>) -> Seq<int>
    decreases hwmons.len(),
{
    if hwmons.len() == 0 {
        Seq::empty()
    } else {
        let rest = positions_named(hwmons.drop_last(), name);
        if hwmons.last().spec_name() == name {
            rest.push(hwmons.len() - 1)
        } else {
            rest
        }
    }
}

/// This crate's central struct.
/// It stores all parsed [`Hwmon`]s which you can query either by name, device path or index.
#[derive(Debug)]
pub struct Hwmons {
    path: String,
    hwmons: Vec<Hwmon>,
}

impl Hwmons {
    /// The path that was parsed.
    pub closed spec fn spec_path(&self) -> Seq<char> {
        self.path@
    }

    /// The hwmons, by index.
    pub closed spec fn spec_hwmons(&self) -> Seq<Hwmon> {
        self.hwmons@
    }

    /// The hwmon with index `k` lies in the directory `hwmon<k>` of the parsed path.
    #[verifier::type_invariant]
    spec fn hwmons_are_numbered(&self) -> bool {
        &&& self.hwmons@.len() <= u16::MAX + 1
        &&& forall|k: int|
            0 <= k < self.hwmons@.len() ==> #[trigger] self.hwmons@[k].spec_path()
                == spec_hwmon_dir(self.path@, k as u16) && self.hwmons@[k].spec_index() == k
    }

    /// Creates the collection of the hwmons parsed from `path`, where the hwmon with index
    /// `k` lies in the directory `hwmon<k>` of `path`.
    pub fn from_parts(path: String, hwmons: Vec<Hwmon>) -> (r: Hwmons)
        requires
            hwmons@.len() <= u16::MAX + 1,
            forall|k: int|
                0 <= k < hwmons@.len() ==> #[trigger] hwmons@[k].spec_path() == spec_hwmon_dir(
                    path@,
                    k as u16,
                ) && hwmons@[k].spec_index() == k,
        ensures
            r.spec_path() == path@,
            r.spec_hwmons() == hwmons@,
    {
        Hwmons { path, hwmons }
    }

    /// The path that was parsed to generate this object.
    pub fn path(&self) -> (path: &str)
        ensures
            path@ == self.spec_path(),
    {
        self.path.as_str()
    }

    /// Returns the number of hwmons.
    pub fn len(&self) -> (n: usize)
        ensures
            n == self.spec_hwmons().len(),
    {
        self.hwmons.len()
    }

    /// Get `Hwmon`s by their name, in the order of their indices.
    /// Returns no `Hwmon`, if there is no `Hwmon` with the given name.
    pub fn hwmons_by_name(&self, name: &str) -> (found: Vec<&Hwmon>)
        ensures
            found@.len() == positions_named(self.spec_hwmons(), name@).len(),
            forall|k: int|
                0 <= k < found@.len() ==> *found@[k] == self.spec_hwmons()[#[trigger] positions_named(
                    self.spec_hwmons(),
                    name@,
                )[k]],
    {
        let mut found: Vec<&Hwmon> = Vec::new();
        let mut i: usize = 0;
        while i < self.hwmons.len()
            invariant
                i <= self.hwmons@.len(),
                found@.len() == positions_named(self.hwmons@.subrange(0, i as int), name@).len(),
                forall|k: int|
                    0 <= k < found@.len() ==> *found@[k] == self.hwmons@[#[trigger] positions_named(
                        self.hwmons@.subrange(0, i as int),
                        name@,
                    )[k]],
                forall|k: int|
                    0 <= k < positions_named(self.hwmons@.subrange(0, i as int), name@).len()
                        ==> 0 <= #[trigger] positions_named(
                        self.hwmons@.subrange(0, i as int),
                        name@,
                    )[k] < i,
            decreases self.hwmons@.len() - i,
        {
            proof {
                assert(self.hwmons@.subrange(0, i + 1).drop_last() =~= self.hwmons@.subrange(
                    0,
                    i as int,
                ));
            }
            if same_text(self.hwmons[i].name(), name) {
                found.push(&self.hwmons[i]);
            }
            i = i + 1;
        }
        assert(self.hwmons@.subrange(0, i as int) =~= self.hwmons@);
        found
    }

    /// Get a `Hwmon` by its index.
    /// Returns `None`, if there is no `Hwmon` with the given index.
    pub fn hwmon_by_index(&self, index: usize) -> (hwmon: Option<&Hwmon>)
        ensures
            match hwmon {
                Some(h) => index < self.spec_hwmons().len() && *h == self.spec_hwmons()[index as int]
                    && h.spec_path() == spec_hwmon_dir(self.spec_path(), index as u16)
                    && h.spec_index() == index,
                None => index >= self.spec_hwmons().len(),
            },
    {
        proof {
            use_type_invariant(self);
        }
        if index < self.hwmons.len() {
            Some(&self.hwmons[index])
        } else {
            None
        }
    }

    /// Get a `Hwmon` by its device path: the first hwmon whose device path equals
    /// `device_path`. `device_paths[k]` is the device path of the hwmon with index `k`.
    /// Returns `None`, if there is no `Hwmon` with the given device path.
    pub fn hwmon_by_device_path(&self, device_paths: &Vec<String>, device_path: &str) -> (hwmon:
        Option<&Hwmon>)
        requires
            device_paths@.len() == self.spec_hwmons().len(),
        ensures
            match hwmon {
                Some(h) => exists|k: int|
                    0 <= k < self.spec_hwmons().len() && device_paths@[k]@ == device_path@ && *h
                        == self.spec_hwmons()[k] && forall|j: int|
                        0 <= j < k ==> #[trigger] device_paths@[j]@ != device_path@,
                None => forall|k: int|
                    0 <= k < self.spec_hwmons().len() ==> #[trigger] device_paths@[k]@
                        != device_path@,
            },
    {
        let mut i: usize = 0;
        while i < self.hwmons.len()
            invariant
                device_paths@.len() == self.hwmons@.len(),
                i <= self.hwmons@.len(),
                forall|j: int| 0 <= j < i ==> #[trigger] device_paths@[j]@ != device_path@,
            decreases self.hwmons@.len() - i,
        {
            if same_text(device_paths[i].as_str(), device_path) {
                let found = &self.hwmons[i];
                assert(0 <= i < self.spec_hwmons().len() && device_paths@[i as int]@ == device_path@
                    && *found == self.spec_hwmons()[i as int]);
                return Some(found);
            }
            i = i + 1;
        }
        None
    }

    /// Returns an iterator over all hwmons, their names and their indices: it yields every
    /// hwmon, in the order of the indices, and then nothing.
    pub fn iter(&self) -> (iter: Iter<'_>)
        ensures
            iter.spec_hwmons() == self.spec_hwmons(),
            iter.spec_index() == 0,
            iter.spec_remaining() == self.spec_hwmons(),
    {
        let iter = Iter { hwmons: &self.hwmons, index: 0 };
        assert(iter.spec_remaining() =~= self.spec_hwmons());
        iter
    }
}

impl Clone for Hwmons {
    fn clone(&self) -> (copy: Self)
        ensures
            copy.spec_path() == self.spec_path(),
            copy.spec_hwmons().len() == self.spec_hwmons().len(),
            forall|k: int|
                0 <= k < self.spec_hwmons().len() ==> cloned::<Hwmon>(
                    self.spec_hwmons()[k],
                    #[trigger] copy.spec_hwmons()[k],
                ),
    {
        proof {
            use_type_invariant(self);
        }
        let hwmons = self.hwmons.clone();
        proof {
            assert forall|k: int| 0 <= k < hwmons@.len() implies #[trigger] hwmons@[k].spec_path()
                == spec_hwmon_dir(self.path@, k as u16) by {
                assert(cloned::<Hwmon>(self.hwmons[k], hwmons[k]));
                assert(self.hwmons@[k].spec_path() == spec_hwmon_dir(self.path@, k as u16));
                assert(self.hwmons@[k].spec_index() == k);
            }
        }
        Hwmons { path: self.path.clone(), hwmons }
    }
}

/// An iterator over all parsed hwmons.
#[derive(Debug, Copy, Clone)]
pub struct Iter<'a> {
    hwmons: &'a Vec<Hwmon>,
    index: usize,
}

impl<'a> Iter<'a> {
    /// The hwmons that this iterator walks through.
    pub closed spec fn spec_hwmons(&self) -> Seq<Hwmon> {
        self.hwmons@
    }

    /// The index of the next hwmon.
    pub closed spec fn spec_index(&self) -> nat {
        self.index as nat
    }

    /// The hwmons that this iterator has left to yield, in order.
    pub open spec fn spec_remaining(&self) -> Seq<Hwmon> {
        if self.spec_index() <= self.spec_hwmons().len() {
            self.spec_hwmons().subrange(self.spec_index() as int, self.spec_hwmons().len() as int)
        } else {
            Seq::empty()
        }
    }

    /// Returns the next hwmon with its index and name, or `None` after the last one.
    /// Successive calls yield the hwmons that are left, in order, and then `None` on every
    /// later call.
    pub fn next(&mut self) -> (item: Option<(usize, &'a str, &'a Hwmon)>)
        ensures
            final(self).spec_hwmons() == old(self).spec_hwmons(),
            match item {
                Some((_, _, hwmon)) => old(self).spec_remaining().len() > 0 && *hwmon == old(
                    self,
                ).spec_remaining()[0] && final(self).spec_remaining() == old(
                    self,
                ).spec_remaining().drop_first(),
                None => old(self).spec_remaining().len() == 0 && final(self).spec_remaining().len()
                    == 0,
            },
            match item {
                Some((index, name, hwmon)) => index == old(self).spec_index() && index
                    < old(self).spec_hwmons().len() && *hwmon == old(self).spec_hwmons()[index as int]
                    && name@ == hwmon.spec_name() && final(self).spec_index() == index + 1,
                None => old(self).spec_index() >= old(self).spec_hwmons().len()
                    && final(self).spec_index() == old(self).spec_index(),
            },
    {
        if self.index < self.hwmons.len() {
            let hwmons: &'a Vec<Hwmon> = self.hwmons;
            let hwmon: &'a Hwmon = &hwmons[self.index];
            let index = self.index;
            self.index = self.index + 1;
            assert(self.spec_remaining() =~= old(self).spec_remaining().drop_first());
            Some((index, hwmon.name(), hwmon))
        } else {
            None
        }
    }

    /// Returns the number of hwmons that are left.
    pub fn len(&self) -> (n: usize)
        ensures
            n == self.spec_remaining().len(),
            n == self.spec_remaining().len(),
            n == if self.spec_index() <= self.spec_hwmons().len() {
                self.spec_hwmons().len() - self.spec_index()
            } else {
                0
            },
    {
        if self.index <= self.hwmons.len() {
            self.hwmons.len() - self.index
        } else {
            0
        }
    }
}

/// The hwmons of `hwmons` whose name is `name`, in order.
pub open spec fn named(hwmons: Seq<Hwmon>, name: Seq<char>) -> Seq<Hwmon>
    decreases hwmons.len(),
{
    if hwmons.len() == 0 {
        Seq::empty()
    } else if hwmons[0].spec_name() == name {
        seq![hwmons[0]] + named(hwmons.drop_first(), name)
    } else {
        named(hwmons.drop_first(), name)
    }
}

/// An iterator over the parsed hwmons with a given name.
#[derive(Debug, Clone)]
pub struct NamedIter<'a> {
    inner: Iter<'a>,
    name: String,
}

impl<'a> NamedIter<'a> {
    /// The hwmons that this iterator walks through.
    pub closed spec fn spec_hwmons(&self) -> Seq<Hwmon> {
        self.inner.spec_hwmons()
    }

    /// The index of the next hwmon to look at.
    pub closed spec fn spec_index(&self) -> nat {
        self.inner.spec_index()
    }

    /// The name that the hwmons this iterator gives have.
    pub closed spec fn spec_name(&self) -> Seq<char> {
        self.name@
    }

    /// The hwmons with the given name that this iterator has left to yield, in order.
    pub open spec fn spec_remaining(&self) -> Seq<Hwmon> {
        named(self.spec_inner_remaining(), self.spec_name())
    }

    /// The hwmons that the inner iterator has left, whatever their names.
    pub closed spec fn spec_inner_remaining(&self) -> Seq<Hwmon> {
        self.inner.spec_remaining()
    }

    /// Creates an iterator over the hwmons that `inner` has left and whose name is `name`.
    pub fn new(inner: Iter<'a>, name: &str) -> (iter: NamedIter<'a>)
        ensures
            iter.spec_inner_remaining() == inner.spec_remaining(),
            iter.spec_hwmons() == inner.spec_hwmons(),
            iter.spec_index() == inner.spec_index(),
            iter.spec_name() == name@,
    {
        NamedIter { inner, name: String::from_str(name) }
    }

    /// Returns the next hwmon with the given name, or `None` if no hwmon that is left has it.
    /// Successive calls yield exactly the hwmons with the given name that are left, in
    /// order, and then `None` on every later call.
    pub fn next(&mut self) -> (item: Option<&'a Hwmon>)
        ensures
            final(self).spec_hwmons() == old(self).spec_hwmons(),
            final(self).spec_name() == old(self).spec_name(),
            match item {
                Some(hwmon) => old(self).spec_remaining().len() > 0 && *hwmon == old(
                    self,
                ).spec_remaining()[0] && final(self).spec_remaining() == old(
                    self,
                ).spec_remaining().drop_first(),
                None => old(self).spec_remaining().len() == 0 && final(self).spec_remaining().len()
                    == 0,
            },
            match item {
                Some(hwmon) => exists|k: int|
                    old(self).spec_index() <= k < old(self).spec_hwmons().len()
                        && *hwmon == old(self).spec_hwmons()[k]
                        && hwmon.spec_name() == old(self).spec_name()
                        && final(self).spec_index() == k + 1
                        && forall|j: int|
                        old(self).spec_index() <= j < k ==> (#[trigger] old(self).spec_hwmons()[j]).spec_name()
                            != old(self).spec_name(),
                None => (forall|j: int|
                    old(self).spec_index() <= j < old(self).spec_hwmons().len() ==> (
                    #[trigger] old(self).spec_hwmons()[j]).spec_name() != old(self).spec_name())
                    && final(self).spec_index() >= final(self).spec_hwmons().len(),
            },
    {
        let ghost start = self.inner.spec_index();
        let ghost hwmons = self.inner.spec_hwmons();
        loop
            invariant
                self.name == old(self).name,
                self.inner.spec_hwmons() == hwmons,
                hwmons == old(self).spec_hwmons(),
                start == old(self).spec_index(),
                start <= self.inner.spec_index(),
                forall|j: int|
                    start <= j < self.inner.spec_index() ==> (#[trigger] hwmons[j]).spec_name()
                        != self.name@,
                named(self.inner.spec_remaining(), self.name@) == old(self).spec_remaining(),
            decreases (hwmons.len() - self.inner.spec_index()) as nat,
        {
            let ghost before = self.inner.spec_remaining();
            match self.inner.next() {
                Some((index, name, hwmon)) => {
                    if same_text(name, self.name.as_str()) {
                        assert((seq![before[0]] + named(before.drop_first(), self.name@)).drop_first()
                            =~= named(before.drop_first(), self.name@));
                        return Some(hwmon);
                    }
                },
                None => {
                    return None;
                },
            }
        }
    }
}

} // verus!
