//! Saved peers: a list of favorites in the order in which they were added.

use crate::platform::{is_uuid_text, new_uuid_text, now_millis};
use crate::text::text_eq;
use crate::types::{AppError, AppErrorView, Favorite, FavoriteView};
use vstd::prelude::*;
use vstd::string::*;

verus! {

impl Favorite {
    /// A new favorite with a fresh identifier, never resolved and never
    /// used.
    pub fn new(name: String, address: String) -> (r: Self)
        ensures
            is_uuid_text(r@.id),
            r@ == Favorite::spec_new(r@.id, name@, address@),
    {
        Favorite::with_id(new_uuid_text(), name, address)
    }

    /// A new favorite with the given identifier, never resolved and never
    /// used.
    pub fn with_id(id: String, name: String, address: String) -> (r: Self)
        ensures
            r@ == Favorite::spec_new(id@, name@, address@),
    {
        Favorite { id, name, address, last_resolved_ip: None, last_used: None }
    }

    /// What a new favorite holds.
    pub open spec fn spec_new(id: Seq<char>, name: Seq<char>, address: Seq<char>) -> FavoriteView {
        FavoriteView { id, name, address, last_resolved_ip: None, last_used: None }
    }
}

/// Whether `i` is the place of the first favorite with the identifier `id`.
pub open spec fn first_favorite_with_id(favorites: Seq<FavoriteView>, id: Seq<char>, i: int) -> bool {
    &&& 0 <= i < favorites.len()
    &&& favorites[i].id == id
    &&& forall|j: int| 0 <= j < i ==> favorites[j].id != id
}

/// Whether some favorite has the identifier `id`.
pub open spec fn has_favorite(favorites: Seq<FavoriteView>, id: Seq<char>) -> bool {
    exists|i: int| 0 <= i < favorites.len() && #[trigger] favorites[i].id == id
}

/// A favorite after an edit at the time `now`: each given field replaces
/// the old one, and the time of last use is `now`.
pub open spec fn edited(
    f: FavoriteView,
    name: Option<Seq<char>>,
    address: Option<Seq<char>>,
    last_resolved_ip: Option<Seq<char>>,
    now: i64,
) -> FavoriteView {
    FavoriteView {
        id: f.id,
        name: match name {
            Some(n) => n,
            None => f.name,
        },
        address: match address {
            Some(a) => a,
            None => f.address,
        },
        last_resolved_ip: match last_resolved_ip {
            Some(ip) => Some(ip),
            None => f.last_resolved_ip,
        },
        last_used: Some(now),
    }
}

/// A favorite after its address `address` was resolved to `ip`: the
/// favorites with another address are left as they are.
pub open spec fn resolved(f: FavoriteView, address: Seq<char>, ip: Seq<char>) -> FavoriteView {
    if f.address == address {
        FavoriteView { last_resolved_ip: Some(ip), ..f }
    } else {
        f
    }
}

/// The error for an identifier that no favorite has.
pub open spec fn favorite_not_found(id: Seq<char>) -> AppErrorView {
    AppErrorView::InvalidConfig("Favorite not found: "@ + id)
}

fn not_found(id: &str) -> (r: AppError)
    ensures
        r@ == favorite_not_found(id@),
{
    AppError::InvalidConfig("Favorite not found: ".to_string().concat(id))
}

/// Model of a [`FavoritesStore`].
pub struct FavoritesStoreView {
    pub favorites: Seq<FavoriteView>,
    pub file_path: Seq<char>,
}

/// The favorites, and the file they are kept in.
pub struct FavoritesStore {
    favorites: Vec<Favorite>,
    file_path: String,
}

impl View for FavoritesStore {
    type V = FavoritesStoreView;

    closed spec fn view(&self) -> FavoritesStoreView {
        FavoritesStoreView { favorites: self.favorites.deep_view(), file_path: self.file_path@ }
    }
}

impl FavoritesStore {
    /// A store for the file at `file_path`, holding the favorites loaded
    /// from it.
    pub fn new(file_path: String, loaded: Vec<Favorite>) -> (r: Self)
        ensures
            r@.file_path == file_path@,
            r@.favorites == loaded.deep_view(),
    {
        FavoritesStore { favorites: loaded, file_path }
    }

    /// The file in which the favorites are kept.
    pub fn file_path(&self) -> (r: String)
        ensures
            r@ == self@.file_path,
    {
        self.file_path.clone()
    }

    /// All favorites, in the order in which they were added.
    pub fn list(&self) -> (r: Vec<Favorite>)
        ensures
            r.deep_view() == self@.favorites,
    {
        let mut out: Vec<Favorite> = Vec::new();
        let mut i: usize = 0;
        while i < self.favorites.len()
            invariant
                i <= self.favorites.len(),
                out.len() == i,
                forall|j: int| 0 <= j < i ==> out[j]@ == self.favorites[j]@,
            decreases self.favorites.len() - i,
        {
            out.push(self.favorites[i].clone());
            i = i + 1;
        }
        assert(out.deep_view() =~= self.favorites.deep_view());
        out
    }

    /// Adds a new favorite at the end and returns a copy of it.
    pub fn add(&mut self, name: String, address: String) -> (r: Favorite)
        ensures
            is_uuid_text(r@.id),
            r@ == Favorite::spec_new(r@.id, name@, address@),
            final(self)@.favorites == old(self)@.favorites.push(r@),
            final(self)@.file_path == old(self)@.file_path,
    {
        let favorite = Favorite::new(name, address);
        let copy = favorite.clone();
        let ghost before = self.favorites.deep_view();
        self.favorites.push(favorite);
        assert(self.favorites.deep_view() =~= before.push(copy@));
        copy
    }

    fn position(&self, id: &str) -> (r: Option<usize>)
        ensures
            match r {
                Some(i) => first_favorite_with_id(self@.favorites, id@, i as int),
                None => !has_favorite(self@.favorites, id@),
            },
    {
        let mut i: usize = 0;
        while i < self.favorites.len()
            invariant
                i <= self.favorites.len(),
                forall|j: int| 0 <= j < i ==> self.favorites.deep_view()[j].id != id@,
            decreases self.favorites.len() - i,
        {
            if text_eq(self.favorites[i].id.as_str(), id) {
                return Some(i);
            }
            i = i + 1;
        }
        None
    }

    /// Edits the first favorite with the identifier `id`, marks it as used
    /// at the time `now`, and returns a copy of the result.
    pub fn update_at(
        &mut self,
        id: &str,
        name: Option<String>,
        address: Option<String>,
        last_resolved_ip: Option<String>,
        now: i64,
    ) -> (r: Result<Favorite, AppError>)
        ensures
            final(self)@.file_path == old(self)@.file_path,
            match r {
                Ok(f) => exists|i: int|
                    first_favorite_with_id(old(self)@.favorites, id@, i) && f@ == edited(
                        old(self)@.favorites[i],
                        name.deep_view(),
                        address.deep_view(),
                        last_resolved_ip.deep_view(),
                        now,
                    ) && final(self)@.favorites == old(self)@.favorites.update(i, f@),
                Err(e) => !has_favorite(old(self)@.favorites, id@) && e@ == favorite_not_found(id@)
                    && final(self)@ == old(self)@,
            },
    {
        match self.position(id) {
            Some(i) => {
                let ghost before = self.favorites.deep_view();
                if let Some(n) = name {
                    self.favorites[i].name = n;
                }
                if let Some(a) = address {
                    self.favorites[i].address = a;
                }
                if let Some(ip) = last_resolved_ip {
                    self.favorites[i].last_resolved_ip = Some(ip);
                }
                self.favorites[i].last_used = Some(now);
                let copy = self.favorites[i].clone();
                assert(self.favorites.deep_view() =~= before.update(i as int, copy@));
                Ok(copy)
            },
            None => Err(not_found(id)),
        }
    }

    /// Edits the first favorite with the identifier `id`, marks it as used
    /// now, and returns a copy of the result.
    pub fn update(
        &mut self,
        id: &str,
        name: Option<String>,
        address: Option<String>,
        last_resolved_ip: Option<String>,
    ) -> (r: Result<Favorite, AppError>)
        ensures
            final(self)@.file_path == old(self)@.file_path,
            match r {
                Ok(f) => exists|i: int, now: i64|
                    now >= 0 && first_favorite_with_id(old(self)@.favorites, id@, i) && f@
                        == edited(
                        old(self)@.favorites[i],
                        name.deep_view(),
                        address.deep_view(),
                        last_resolved_ip.deep_view(),
                        now,
                    ) && final(self)@.favorites == old(self)@.favorites.update(i, f@),
                Err(e) => !has_favorite(old(self)@.favorites, id@) && e@ == favorite_not_found(id@)
                    && final(self)@ == old(self)@,
            },
    {
        let now = now_millis();
        self.update_at(id, name, address, last_resolved_ip, now)
    }

    /// Removes every favorite with the identifier `id`; an error where
    /// there was none.
    pub fn delete(&mut self, id: &str) -> (r: Result<(), AppError>)
        ensures
            final(self)@.file_path == old(self)@.file_path,
            final(self)@.favorites == old(self)@.favorites.filter(|f: FavoriteView| f.id != id@),
            match r {
                Ok(_) => has_favorite(old(self)@.favorites, id@),
                Err(e) => !has_favorite(old(self)@.favorites, id@) && e@ == favorite_not_found(id@)
                    && final(self)@ == old(self)@,
            },
    {
        let ghost keep = |f: FavoriteView| f.id != id@;
        let ghost before = self.favorites.deep_view();
        let mut kept: Vec<Favorite> = Vec::new();
        let mut removed: bool = false;
        let mut i: usize = 0;
        while i < self.favorites.len()
            invariant
                i <= self.favorites.len(),
                self.favorites.deep_view() == before,
                keep == |f: FavoriteView| f.id != id@,
                kept.deep_view() == before.take(i as int).filter(keep),
                removed == has_favorite(before.take(i as int), id@),
                !removed ==> kept.deep_view() == before.take(i as int),
            decreases self.favorites.len() - i,
        {
            proof {
                let t = before.take(i as int + 1);
                assert(t.drop_last() =~= before.take(i as int));
                assert(t.last() == self.favorites[i as int]@);
                reveal(Seq::filter);
                assert forall|j: int| 0 <= j < i implies #[trigger] t[j] == before.take(
                    i as int,
                )[j] by {}
                if has_favorite(before.take(i as int), id@) {
                    let w = choose|j: int|
                        0 <= j < i && #[trigger] before.take(i as int)[j].id == id@;
                    assert(t[w].id == id@);
                }
                if has_favorite(t, id@) && t.last().id != id@ {
                    let w = choose|j: int| 0 <= j < t.len() && #[trigger] t[j].id == id@;
                    assert(before.take(i as int)[w].id == id@);
                }
            }
            if text_eq(self.favorites[i].id.as_str(), id) {
                removed = true;
                assert(before.take(i as int + 1)[i as int].id == id@);
            } else {
                let ghost so_far = kept.deep_view();
                kept.push(self.favorites[i].clone());
                assert(kept.deep_view() =~= so_far.push(self.favorites[i as int]@));
                assert(!removed ==> kept.deep_view() =~= before.take(i as int + 1));
            }
            i = i + 1;
        }
        assert(before.take(i as int) =~= before);
        if removed {
            self.favorites = kept;
            Ok(())
        } else {
            Err(not_found(id))
        }
    }

    /// The first favorite with the identifier `id`, if there is one.
    pub fn get(&self, id: &str) -> (r: Option<Favorite>)
        ensures
            match r {
                Some(f) => exists|i: int|
                    first_favorite_with_id(self@.favorites, id@, i) && f@ == self@.favorites[i],
                None => !has_favorite(self@.favorites, id@),
            },
    {
        match self.position(id) {
            Some(i) => Some(self.favorites[i].clone()),
            None => None,
        }
    }

    /// Records `ip` as the last resolved address of every favorite whose
    /// address is `address`.
    pub fn update_resolved_ip(&mut self, address: &str, ip: &str)
        ensures
            final(self)@.file_path == old(self)@.file_path,
            final(self)@.favorites == old(self)@.favorites.map_values(
                |f: FavoriteView| resolved(f, address@, ip@),
            ),
    {
        let ghost before = self.favorites.deep_view();
        let mut i: usize = 0;
        while i < self.favorites.len()
            invariant
                i <= self.favorites.len(),
                self.favorites.len() == before.len(),
                self.file_path == old(self).file_path,
                forall|j: int|
                    0 <= j < i ==> #[trigger] self.favorites.deep_view()[j] == resolved(
                        before[j],
                        address@,
                        ip@,
                    ),
                forall|j: int|
                    i <= j < before.len() ==> #[trigger] self.favorites.deep_view()[j] == before[j],
            decreases self.favorites.len() - i,
        {
            let ghost current = self.favorites.deep_view();
            assert(current[i as int] == before[i as int]);
            assert(current[i as int] == self.favorites[i as int]@);
            if text_eq(self.favorites[i].address.as_str(), address) {
                self.favorites[i].last_resolved_ip = Some(ip.to_owned());
            }
            proof {
                let now = self.favorites.deep_view();
                assert(now[i as int] == self.favorites[i as int]@);
                assert(now[i as int] == resolved(before[i as int], address@, ip@));
                assert forall|j: int| 0 <= j < before.len() && j != i implies #[trigger] now[j]
                    == current[j] by {}
            }
            i = i + 1;
        }
        assert(self.favorites.deep_view() =~= before.map_values(
            |f: FavoriteView| resolved(f, address@, ip@),
        ));
    }
}

} // verus!
