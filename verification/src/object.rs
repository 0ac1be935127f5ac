use vstd::prelude::*;

use crate::error::ErrorKind;
use crate::render::{object_text, push_decimal};
use crate::storage::Storage;

verus! {

/// A plain three-axis coordinate, owned by an entity. Pure value, copyable,
/// no identity of its own.
#[derive(Clone, Copy, Debug, PartialEq, Eq, Structural)]
pub struct Location {
    pub x: u32,
    pub y: u32,
    pub z: u32,
}

impl Default for Location {
    /// The origin, `(0, 0, 0)`.
    fn default() -> (l: Location)
        ensures
            l == (Location { x: 0, y: 0, z: 0 }),
    {
        Location { x: 0, y: 0, z: 0 }
    }
}

/// Observable equality of two entities: same identity, same items, same
/// location and same lock flag.
pub open spec fn same_state<O: Object>(a: O, b: O) -> bool {
    &&& a.id_view() == b.id_view()
    &&& a.items() == b.items()
    &&& a.loc() == b.loc()
    &&& a.is_locked() == b.is_locked()
}

/// The capability contract any holder of storage must satisfy to take part
/// in transfers: stable identity, storage and location access, and an
/// advisory lock/unlock pair.
///
/// The lock flag is a logical, application-level reservation ("this entity
/// is held by an in-flight command"); exclusive structural access to the
/// entity's fields is what a `&mut` borrow grants, and every operation here
/// demands one only for its own duration.
pub trait Object: Sized {
    /// The stable identity string; immutable after creation.
    spec fn id_view(&self) -> Seq<char>;

    /// The item identifiers currently held, in insertion order.
    spec fn items(&self) -> Seq<u64>;

    /// The current position.
    spec fn loc(&self) -> Location;

    /// Whether the logical lock flag is set.
    spec fn is_locked(&self) -> bool;

    /// Reads the identity string.
    fn id(&self) -> (r: &str)
        ensures
            r@ == self.id_view(),
    ;

    /// Read access to the storage.
    fn storage(&self) -> (r: &Storage)
        ensures
            r@ == self.items(),
    ;

    /// Read access to the position.
    fn location(&self) -> (r: &Location)
        ensures
            *r == self.loc(),
    ;

    /// Mutable access to the storage. By convention the caller already
    /// holds this entity's logical lock; nothing here can detect a caller
    /// that bypasses it.
    fn get_storage(&mut self) -> (r: &mut Storage)
        ensures
            (*r)@ == old(self).items(),
            final(self).items() == (*final(r))@,
            final(self).id_view() == old(self).id_view(),
            final(self).loc() == old(self).loc(),
            final(self).is_locked() == old(self).is_locked(),
    ;

    /// Mutable access to the position, under the same convention as
    /// `get_storage`.
    fn get_location(&mut self) -> (r: &mut Location)
        ensures
            *r == old(self).loc(),
            final(self).loc() == *final(r),
            final(self).items() == old(self).items(),
            final(self).id_view() == old(self).id_view(),
            final(self).is_locked() == old(self).is_locked(),
    ;

    /// Sets the logical lock flag; fails, changing nothing, if it is
    /// already set. This is how double acquisition is surfaced.
    fn lock(&mut self) -> (r: Result<(), ErrorKind>)
        ensures
            old(self).is_locked() ==> r == Err::<(), ErrorKind>(ErrorKind::AlreadyLocked)
                && *final(self) == *old(self),
            !old(self).is_locked() ==> r == Ok::<(), ErrorKind>(()) && final(self).is_locked()
                && final(self).items() == old(self).items() && final(self).id_view() == old(
                self,
            ).id_view() && final(self).loc() == old(self).loc(),
    ;

    /// Clears the logical lock flag. Clearing an already-clear flag is
    /// treated as success: release is idempotent.
    fn unlock(&mut self) -> (r: Result<(), ErrorKind>)
        ensures
            r == Ok::<(), ErrorKind>(()),
            !final(self).is_locked(),
            final(self).items() == old(self).items(),
            final(self).id_view() == old(self).id_view(),
            final(self).loc() == old(self).loc(),
    ;

    /// Renders the entity as a single-line structured string,
    /// `{ id: "<id>", storage: [..], x: X, y: Y, z: Z }`, propagating any
    /// error from the storage rendering.
    fn render(&self) -> (r: Result<String, ErrorKind>)
        ensures
            r matches Ok(s) && s@ == object_text(
                self.id_view(),
                self.items(),
                self.loc().x,
                self.loc().y,
                self.loc().z,
            ),
    {
        let storage_part = self.storage().render();
        match storage_part {
            Ok(storage_part) => {
                let here = *self.location();
                let mut out = String::from_str("{ id: \"");
                out.append(self.id());
                out.append("\", storage: ");
                out.append(storage_part.as_str());
                out.append(", x: ");
                push_decimal(&mut out, here.x as u64);
                out.append(", y: ");
                push_decimal(&mut out, here.y as u64);
                out.append(", z: ");
                push_decimal(&mut out, here.z as u64);
                out.append(" }");
                proof {
                    assert(out@ =~= object_text(
                        self.id_view(),
                        self.items(),
                        self.loc().x,
                        self.loc().y,
                        self.loc().z,
                    ));
                }
                Ok(out)
            },
            Err(err) => Err(err),
        }
    }
}

/// A mobile agent entity. With respect to locking and storage it behaves
/// exactly as any other object; it differs only in its role in the wider
/// simulation.
pub struct Bot {
    id: String,
    storage: Storage,
    location: Location,
    locked: bool,
}

impl Bot {
    /// A fresh, unlocked bot with empty storage at the origin.
    pub fn new() -> (b: Bot)
        ensures
            !b.is_locked(),
            b.items() == Seq::<u64>::empty(),
            b.loc() == (Location { x: 0, y: 0, z: 0 }),
            b.id_view() == "bot"@,
    {
        Bot {
            id: String::from_str("bot"),
            storage: Storage::new(),
            location: Location::default(),
            locked: false,
        }
    }

    /// Reads the logical lock flag.
    pub fn get_lock(&self) -> (r: &bool)
        ensures
            *r == self.is_locked(),
    {
        &self.locked
    }
}

impl Object for Bot {
    closed spec fn id_view(&self) -> Seq<char> {
        self.id@
    }

    closed spec fn items(&self) -> Seq<u64> {
        self.storage@
    }

    closed spec fn loc(&self) -> Location {
        self.location
    }

    closed spec fn is_locked(&self) -> bool {
        self.locked
    }

    fn id(&self) -> (r: &str) {
        self.id.as_str()
    }

    fn storage(&self) -> (r: &Storage) {
        &self.storage
    }

    fn location(&self) -> (r: &Location) {
        &self.location
    }

    fn get_storage(&mut self) -> (r: &mut Storage) {
        &mut self.storage
    }

    fn get_location(&mut self) -> (r: &mut Location) {
        &mut self.location
    }

    fn lock(&mut self) -> (r: Result<(), ErrorKind>) {
        if self.locked {
            Err(ErrorKind::AlreadyLocked)
        } else {
            self.locked = true;
            Ok(())
        }
    }

    fn unlock(&mut self) -> (r: Result<(), ErrorKind>) {
        self.locked = false;
        Ok(())
    }
}

/// A generic static object entity: the plain, immobile holder of storage.
pub struct TestObject {
    id: String,
    storage: Storage,
    location: Location,
    locked: bool,
}

impl TestObject {
    /// A fresh, unlocked object with empty storage at the origin.
    pub fn new() -> (o: TestObject)
        ensures
            !o.is_locked(),
            o.items() == Seq::<u64>::empty(),
            o.loc() == (Location { x: 0, y: 0, z: 0 }),
            o.id_view() == "object"@,
    {
        TestObject {
            id: String::from_str("object"),
            storage: Storage::new(),
            location: Location::default(),
            locked: false,
        }
    }

    /// Reads the logical lock flag.
    pub fn get_lock(&self) -> (r: &bool)
        ensures
            *r == self.is_locked(),
    {
        &self.locked
    }
}

impl Object for TestObject {
    closed spec fn id_view(&self) -> Seq<char> {
        self.id@
    }

    closed spec fn items(&self) -> Seq<u64> {
        self.storage@
    }

    closed spec fn loc(&self) -> Location {
        self.location
    }

    closed spec fn is_locked(&self) -> bool {
        self.locked
    }

    fn id(&self) -> (r: &str) {
        self.id.as_str()
    }

    fn storage(&self) -> (r: &Storage) {
        &self.storage
    }

    fn location(&self) -> (r: &Location) {
        &self.location
    }

    fn get_storage(&mut self) -> (r: &mut Storage) {
        &mut self.storage
    }

    fn get_location(&mut self) -> (r: &mut Location) {
        &mut self.location
    }

    fn lock(&mut self) -> (r: Result<(), ErrorKind>) {
        if self.locked {
            Err(ErrorKind::AlreadyLocked)
        } else {
            self.locked = true;
            Ok(())
        }
    }

    fn unlock(&mut self) -> (r: Result<(), ErrorKind>) {
        self.locked = false;
        Ok(())
    }
}

} // verus!
