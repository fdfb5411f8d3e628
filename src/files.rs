//! The image collection: the entries discovered in a directory, the current
//! selection, and the lazily loaded thumbnail and full-resolution resources.
use vstd::prelude::*;
use vstd::string::StringExecFns;

use crate::images::Image;
use crate::text::{decimal, decimal_string};
use crate::paths::{is_image_name, is_image_file_name, join, join_path, preview_dir};

verus! {

/// One entry of a directory listing, as the file system reports it.
pub struct ListedFile {
    pub name: String,
    pub is_file: bool,
}

/// Why decoding or uploading one image failed.
#[derive(Debug)]
pub enum LoadError {
    Decode(String),
    Upload(String),
}

/// One image file of the collection.
pub struct FileEntry<T> {
    /// Where the image is.
    pub filename: String,
    /// The file name, as shown to the user.
    pub name: String,
    /// Where its preview is.
    pub thumbnail_file: String,
    /// The preview's resource, once loaded.
    pub thumbnail: Image<T>,
    /// The full-resolution resource, once loaded.
    pub image: Image<T>,
}

impl<T> FileEntry<T> {
    /// What is drawn for this entry: the full resource if loaded, else the
    /// preview if loaded, else nothing.
    pub open spec fn active(self) -> Option<T> {
        if self.image.is_loaded() {
            self.image.image
        } else {
            self.thumbnail.image
        }
    }

    /// The slot whose size gives the aspect ratio that is drawn.
    pub open spec fn active_image(self) -> Image<T> {
        if self.image.is_loaded() {
            self.image
        } else {
            self.thumbnail
        }
    }

    /// This entry with its full resource released.
    pub open spec fn without_full(self) -> FileEntry<T> {
        FileEntry {
            image: Image { image: None, width: self.image.width, height: self.image.height },
            ..self
        }
    }

    /// This entry with `img` as its full resource.
    pub open spec fn with_full(self, img: Image<T>) -> FileEntry<T> {
        FileEntry { image: img, ..self }
    }

    /// This entry with `img` as its preview.
    pub open spec fn with_thumbnail(self, img: Image<T>) -> FileEntry<T> {
        FileEntry { thumbnail: img, ..self }
    }

    /// A fresh entry for the file `name` of the directory `root`.
    pub open spec fn is_fresh_for(self, root: Seq<char>, name: Seq<char>) -> bool {
        &&& self.filename@ == join(root, name)
        &&& self.name@ == name
        &&& self.thumbnail_file@ == join(preview_dir(root), name)
        &&& self.thumbnail == Image::<T> { image: None, width: 0, height: 0 }
        &&& self.image == Image::<T> { image: None, width: 0, height: 0 }
    }
}

/// A listing entry that becomes an image entry: a regular file whose
/// extension is on the list.
pub open spec fn accepted(f: ListedFile) -> bool {
    f.is_file && is_image_name(f.name@)
}

/// The names of the accepted files of a listing, in listing order.
pub open spec fn accepted_names(listing: Seq<ListedFile>) -> Seq<Seq<char>>
    decreases listing.len(),
{
    if listing.len() == 0 {
        seq![]
    } else {
        let rest = accepted_names(listing.drop_last());
        if accepted(listing.last()) {
            rest.push(listing.last().name@)
        } else {
            rest
        }
    }
}

/// Discovery keeps exactly the listing's regular image files, in listing
/// order: its names are the names of the listing filtered by `accepted`.
pub proof fn lemma_discovery_filters(listing: Seq<ListedFile>)
    ensures
        accepted_names(listing) == listing.filter(|f: ListedFile| accepted(f)).map_values(
            |f: ListedFile| f.name@,
        ),
    decreases listing.len(),
{
    let pred = |f: ListedFile| accepted(f);
    let name_of = |f: ListedFile| f.name@;
    if listing.len() > 0 {
        lemma_discovery_filters(listing.drop_last());
        let rest = listing.drop_last().filter(pred);
        reveal(Seq::filter);
        assert(listing.filter(pred) == if pred(listing.last()) {
            rest.push(listing.last())
        } else {
            rest
        });
        if pred(listing.last()) {
            assert(rest.push(listing.last()).map_values(name_of) =~= rest.map_values(name_of).push(
                listing.last().name@,
            ));
        }
    } else {
        reveal(Seq::filter);
        assert(listing.filter(pred).map_values(name_of) =~= Seq::<Seq<char>>::empty());
    }
}

/// `next` moves the cursor from `i` when a later entry exists.
pub open spec fn can_advance(len: int, i: int) -> bool {
    i + 1 < len
}

/// `prev` moves the cursor from `i` when an earlier entry exists.
pub open spec fn can_retreat(i: int) -> bool {
    i > 0
}

pub open spec fn step_next(len: int, i: int) -> int {
    if can_advance(len, i) {
        i + 1
    } else {
        i
    }
}

pub open spec fn step_prev(i: int) -> int {
    if can_retreat(i) {
        i - 1
    } else {
        i
    }
}

/// The entries with the full resource of entry `i` released.
pub open spec fn release_full<T>(entries: Seq<FileEntry<T>>, i: int) -> Seq<FileEntry<T>> {
    entries.update(i, entries[i].without_full())
}

/// The entries after storing the decoded previews `loaded`: entry `i` takes
/// `loaded[i]` where that was decoded and the entry had no preview yet.
pub open spec fn with_thumbnails<T>(
    entries: Seq<FileEntry<T>>,
    loaded: Seq<Option<Image<T>>>,
) -> Seq<FileEntry<T>> {
    Seq::new(
        entries.len(),
        |i: int|
            if i < loaded.len() && loaded[i] is Some && !entries[i].thumbnail.is_loaded() {
                entries[i].with_thumbnail(loaded[i]->0)
            } else {
                entries[i]
            },
    )
}

/// The number of entries holding a full-resolution resource.
pub open spec fn full_count<T>(entries: Seq<FileEntry<T>>) -> nat
    decreases entries.len(),
{
    if entries.len() == 0 {
        0
    } else {
        full_count(entries.drop_last()) + if entries.last().image.is_loaded() {
            1nat
        } else {
            0nat
        }
    }
}

/// The window title while entry `i` (counted from 0) of `n` is shown.
pub open spec fn title_spec(i: nat, n: nat, name: Seq<char>) -> Seq<char> {
    "["@ + decimal(i + 1) + "/"@ + decimal(n) + "] "@ + name + " - imvi"@
}

/// `after` is `before` once `next` (`forward`) or `prev` ran and returned `moved`.
pub open spec fn navigated<T>(
    before: ImageContainer<T>,
    after: ImageContainer<T>,
    forward: bool,
    moved: bool,
) -> bool {
    let (n, i) = (before.entries().len() as int, before.current_index());
    &&& after.wf()
    &&& moved == if forward {
        can_advance(n, i)
    } else {
        can_retreat(i)
    }
    &&& after.current_index() == if forward {
        step_next(n, i)
    } else {
        step_prev(i)
    }
    &&& after.entries() == if moved {
        release_full(before.entries(), i)
    } else {
        before.entries()
    }
    &&& after.root_spec() == before.root_spec()
}

/// The ordered entries of one directory and the current selection.
pub struct ImageContainer<T> {
    root: String,
    files: Vec<FileEntry<T>>,
    index: usize,
}

impl<T> ImageContainer<T> {
    pub closed spec fn entries(&self) -> Seq<FileEntry<T>> {
        self.files@
    }

    pub closed spec fn current_index(&self) -> int {
        self.index as int
    }

    pub closed spec fn root_spec(&self) -> Seq<char> {
        self.root@
    }

    /// The cursor is on an entry (or 0 when there are none), and no entry but
    /// the current one holds a full-resolution resource.
    pub open spec fn wf(&self) -> bool {
        &&& (self.entries().len() == 0 ==> self.current_index() == 0)
        &&& (self.entries().len() > 0 ==> 0 <= self.current_index() < self.entries().len())
        &&& forall|i: int|
            0 <= i < self.entries().len() && i != self.current_index()
                ==> !(#[trigger] self.entries()[i]).image.is_loaded()
    }

    /// What is drawn: the current entry's full resource, else its preview,
    /// else nothing (always nothing for an empty collection).
    pub open spec fn active_resource(&self) -> Option<T> {
        if self.entries().len() == 0 {
            None
        } else {
            self.entries()[self.current_index()].active()
        }
    }

    /// Builds the collection for the directory `root` from its listing:
    /// one fresh entry per accepted file, in listing order, the first one
    /// selected.
    pub fn load(root: &String, listing: &Vec<ListedFile>) -> (r: ImageContainer<T>)
        ensures
            r.wf(),
            r.current_index() == 0,
            r.root_spec() == root@,
            r.entries().len() == accepted_names(listing@).len(),
            forall|k: int|
                0 <= k < r.entries().len() ==> (#[trigger] r.entries()[k]).is_fresh_for(
                    root@,
                    accepted_names(listing@)[k],
                ),
    {
        let mut files: Vec<FileEntry<T>> = Vec::new();
        let preview = join_path(root.as_str(), "_preview");
        let mut i: usize = 0;
        while i < listing.len()
            invariant
                i <= listing@.len(),
                preview@ == preview_dir(root@),
                files@.len() == accepted_names(listing@.subrange(0, i as int)).len(),
                forall|k: int|
                    0 <= k < files@.len() ==> (#[trigger] files@[k]).is_fresh_for(
                        root@,
                        accepted_names(listing@.subrange(0, i as int))[k],
                    ),
            decreases listing@.len() - i,
        {
            let listed = &listing[i];
            proof {
                assert(listing@.subrange(0, i + 1).drop_last() =~= listing@.subrange(0, i as int));
            }
            if listed.is_file && is_image_file_name(listed.name.as_str()) {
                let name = listed.name.as_str();
                files.push(
                    FileEntry {
                        filename: join_path(root.as_str(), name),
                        name: String::from_str(name),
                        thumbnail_file: join_path(preview.as_str(), name),
                        thumbnail: Image::empty(),
                        image: Image::empty(),
                    },
                );
            }
            i += 1;
        }
        assert(listing@.subrange(0, listing@.len() as int) =~= listing@);
        ImageContainer { root: root.clone(), files, index: 0 }
    }

    /// The drawable resource of the current entry: its full resource if
    /// loaded, else its preview if loaded, else `None`.
    pub fn get_texture(&self) -> (r: Option<&T>)
        requires
            self.wf(),
        ensures
            r is Some == self.active_resource() is Some,
            r is Some ==> *r->0 == self.active_resource()->0,
    {
        if self.index >= self.files.len() {
            return None;
        }
        let entry = &self.files[self.index];
        match &entry.image.image {
            Some(texture) => Some(texture),
            None => match &entry.thumbnail.image {
                Some(texture) => Some(texture),
                None => None,
            },
        }
    }

    /// The slot of the current entry that is drawn: the full-resolution one
    /// if loaded, else the preview's.
    pub fn get_image(&self) -> (r: &Image<T>)
        requires
            self.wf(),
            self.entries().len() > 0,
        ensures
            *r == self.entries()[self.current_index()].active_image(),
    {
        let entry = &self.files[self.index];
        if entry.image.image.is_some() {
            &entry.image
        } else {
            &entry.thumbnail
        }
    }

    /// Selects the next entry, if there is one, releasing the full resource
    /// of the entry left. Returns whether the selection moved.
    pub fn next(&mut self) -> (r: bool)
        requires
            old(self).wf(),
        ensures
            final(self).wf(),
            r == can_advance(old(self).entries().len() as int, old(self).current_index()),
            final(self).current_index() == step_next(
                old(self).entries().len() as int,
                old(self).current_index(),
            ),
            final(self).entries() == if r {
                release_full(old(self).entries(), old(self).current_index())
            } else {
                old(self).entries()
            },
            final(self).root_spec() == old(self).root_spec(),
    {
        if self.files.len() > 0 && self.index < self.files.len() - 1 {
            self.files[self.index].image.clear();
            self.index += 1;
            proof {
                assert(self.files@ =~= release_full(old(self).files@, old(self).index as int));
            }
            true
        } else {
            false
        }
    }

    /// Stores `image` as the full resource of entry `index`, releasing the
    /// one it held, provided `index` is the current selection; otherwise the
    /// collection is left as it is. Returns whether `image` was stored.
    pub fn update_image(&mut self, index: usize, image: Image<T>) -> (r: bool)
        requires
            old(self).wf(),
        ensures
            final(self).wf(),
            r == (index == old(self).current_index() && index < old(self).entries().len()),
            final(self).current_index() == old(self).current_index(),
            final(self).entries() == if r {
                old(self).entries().update(index as int, old(self).entries()[index as int].with_full(image))
            } else {
                old(self).entries()
            },
            final(self).root_spec() == old(self).root_spec(),
    {
        if index != self.index || index >= self.files.len() {
            return false;
        }
        self.files[index].image.clear();
        self.files[index].image = image;
        proof {
            assert(self.files@ =~= old(self).files@.update(
                index as int,
                old(self).files@[index as int].with_full(image),
            ));
        }
        true
    }

    /// Stores `image` as the preview of entry `index`, releasing the one it
    /// held.
    pub fn update_thumbnail(&mut self, index: usize, image: Image<T>)
        requires
            old(self).wf(),
            index < old(self).entries().len(),
        ensures
            final(self).wf(),
            final(self).current_index() == old(self).current_index(),
            final(self).entries() == old(self).entries().update(
                index as int,
                old(self).entries()[index as int].with_thumbnail(image),
            ),
            final(self).root_spec() == old(self).root_spec(),
    {
        self.files[index].thumbnail.clear();
        self.files[index].thumbnail = image;
        proof {
            assert(self.files@ =~= old(self).files@.update(
                index as int,
                old(self).files@[index as int].with_thumbnail(image),
            ));
        }
    }

    /// Takes the outcome of decoding the current entry's full-resolution
    /// image. If the entry already holds its full resource, that one is kept
    /// and the outcome is dropped, so loading again changes nothing. Else, on
    /// success the decoded image becomes the entry's full resource; on
    /// failure the collection is unchanged, so the entry keeps showing its
    /// preview, and the error is handed back.
    pub fn change_image(&mut self, loaded: Result<Image<T>, LoadError>) -> (r: Result<(), LoadError>)
        requires
            old(self).wf(),
            old(self).entries().len() > 0,
        ensures
            final(self).wf(),
            final(self).current_index() == old(self).current_index(),
            final(self).root_spec() == old(self).root_spec(),
            old(self).entries()[old(self).current_index()].image.is_loaded() ==> {
                &&& r is Ok
                &&& final(self).entries() == old(self).entries()
            },
            !old(self).entries()[old(self).current_index()].image.is_loaded() ==> match loaded {
                Ok(img) => {
                    &&& r is Ok
                    &&& final(self).entries() == old(self).entries().update(
                        old(self).current_index(),
                        old(self).entries()[old(self).current_index()].with_full(img),
                    )
                },
                Err(e) => {
                    &&& r == Err::<(), LoadError>(e)
                    &&& final(self).entries() == old(self).entries()
                },
            },
    {
        if self.files[self.index].image.image.is_some() {
            return Ok(());
        }
        match loaded {
            Ok(img) => {
                let index = self.index;
                self.update_image(index, img);
                Ok(())
            },
            Err(e) => Err(e),
        }
    }

    /// Whether the current entry still lacks its full-resolution resource.
    pub fn needs_full_resource(&self) -> (r: bool)
        requires
            self.wf(),
        ensures
            r == (self.entries().len() > 0 && !self.entries()[self.current_index()].image.is_loaded()),
    {
        self.index < self.files.len() && self.files[self.index].image.image.is_none()
    }

    /// Whether entry `index` still lacks its preview.
    pub fn needs_thumbnail(&self, index: usize) -> (r: bool)
        requires
            index < self.entries().len(),
        ensures
            r == !self.entries()[index as int].thumbnail.is_loaded(),
    {
        self.files[index].thumbnail.image.is_none()
    }

    /// Takes the decoded previews, one per entry in order (`None` where
    /// decoding failed or was not attempted). Each entry without a preview
    /// takes its decoded one; a failure leaves only its own entry without a
    /// preview. Items beyond the number of entries are ignored.
    pub fn load_thumbnails(&mut self, loaded: Vec<Option<Image<T>>>)
        requires
            old(self).wf(),
        ensures
            final(self).wf(),
            final(self).current_index() == old(self).current_index(),
            final(self).entries() == with_thumbnails(old(self).entries(), loaded@),
            final(self).root_spec() == old(self).root_spec(),
    {
        let mut loaded = loaded;
        let ghost target = with_thumbnails(old(self).files@, loaded@);
        while loaded.len() > self.files.len()
            invariant
                self.files@ == old(self).files@,
                self.index == old(self).index,
                self.root == old(self).root,
                target == with_thumbnails(old(self).files@, loaded@),
            decreases loaded.len(),
        {
            let ghost before = loaded@;
            loaded.pop();
            proof {
                assert(with_thumbnails(old(self).files@, loaded@) =~= with_thumbnails(
                    old(self).files@,
                    before,
                ));
            }
        }
        let ghost all = loaded@;
        let mut i: usize = loaded.len();
        while i > 0
            invariant
                i <= all.len(),
                i == loaded@.len(),
                loaded@ == all.subrange(0, i as int),
                all.len() <= old(self).files@.len(),
                target == with_thumbnails(old(self).files@, all),
                self.files@.len() == old(self).files@.len(),
                self.index == old(self).index,
                self.root == old(self).root,
                forall|k: int|
                    0 <= k < self.files@.len() ==> #[trigger] self.files@[k] == if k < i {
                        old(self).files@[k]
                    } else {
                        target[k]
                    },
            decreases i,
        {
            let item = loaded.pop();
            i -= 1;
            proof {
                assert(item == Some(all[i as int]));
            }
            match item {
                Some(Some(img)) => {
                    if self.files[i].thumbnail.image.is_none() {
                        self.files[i].thumbnail = img;
                    }
                },
                _ => {},
            }
            proof {
                assert(loaded@ =~= all.subrange(0, i as int));
            }
        }
        proof {
            assert(self.files@ =~= target);
        }
    }

    /// The number of entries.
    pub fn len(&self) -> (r: usize)
        ensures
            r == self.entries().len(),
    {
        self.files.len()
    }

    pub fn is_empty(&self) -> (r: bool)
        ensures
            r == (self.entries().len() == 0),
    {
        self.files.len() == 0
    }

    /// The position of the current selection.
    pub fn index(&self) -> (r: usize)
        ensures
            r == self.current_index(),
    {
        self.index
    }

    /// The directory the entries were discovered in.
    pub fn root(&self) -> (r: &String)
        ensures
            r@ == self.root_spec(),
    {
        &self.root
    }

    /// All entries, in discovery order.
    pub fn files(&self) -> (r: &Vec<FileEntry<T>>)
        ensures
            r@ == self.entries(),
    {
        &self.files
    }

    /// The current entry.
    pub fn current(&self) -> (r: &FileEntry<T>)
        requires
            self.wf(),
            self.entries().len() > 0,
        ensures
            *r == self.entries()[self.current_index()],
    {
        &self.files[self.index]
    }

    /// The window title: the 1-based position, the number of entries and the
    /// current entry's name, or just the program's name when there are none.
    pub fn title(&self) -> (r: String)
        requires
            self.wf(),
        ensures
            r@ == if self.entries().len() == 0 {
                "imvi"@
            } else {
                title_spec(
                    self.current_index() as nat,
                    self.entries().len(),
                    self.entries()[self.current_index()].name@,
                )
            },
    {
        if self.files.len() == 0 {
            return String::from_str("imvi");
        }
        let mut s = String::from_str("[");
        let position = decimal_string(self.index + 1);
        s.append(position.as_str());
        s.append("/");
        let total = decimal_string(self.files.len());
        s.append(total.as_str());
        s.append("] ");
        s.append(self.files[self.index].name.as_str());
        s.append(" - imvi");
        s
    }

    /// Selects the previous entry, if there is one, releasing the full
    /// resource of the entry left. Returns whether the selection moved.
    pub fn prev(&mut self) -> (r: bool)
        requires
            old(self).wf(),
        ensures
            final(self).wf(),
            r == can_retreat(old(self).current_index()),
            final(self).current_index() == step_prev(old(self).current_index()),
            final(self).entries() == if r {
                release_full(old(self).entries(), old(self).current_index())
            } else {
                old(self).entries()
            },
            final(self).root_spec() == old(self).root_spec(),
    {
        if self.index > 0 {
            self.files[self.index].image.clear();
            self.index -= 1;
            proof {
                assert(self.files@ =~= release_full(old(self).files@, old(self).index as int));
            }
            true
        } else {
            false
        }
    }
}

/// The cursor after the moves `moves` from `i` (`true`: `next`, `false`:
/// `prev`) in a collection of `len` entries.
pub open spec fn navigate(len: int, i: int, moves: Seq<bool>) -> int
    decreases moves.len(),
{
    if moves.len() == 0 {
        i
    } else {
        let j = if moves[0] {
            step_next(len, i)
        } else {
            step_prev(i)
        };
        navigate(len, j, moves.drop_first())
    }
}

/// In a non-empty collection, any sequence of `next` and `prev` calls keeps
/// the cursor on an entry; `next` on the last entry and `prev` on the first
/// one neither move nor report a move.
pub proof fn lemma_navigation_in_range(len: int, i: int, moves: Seq<bool>)
    requires
        0 <= i < len,
    ensures
        0 <= navigate(len, i, moves) < len,
        !can_advance(len, len - 1),
        step_next(len, len - 1) == len - 1,
        !can_retreat(0),
        step_prev(0) == 0,
    decreases moves.len(),
{
    if moves.len() > 0 {
        let j = if moves[0] {
            step_next(len, i)
        } else {
            step_prev(i)
        };
        lemma_navigation_in_range(len, j, moves.drop_first());
    }
}

/// In an empty collection neither `next` nor `prev` moves the cursor or
/// reports a move.
pub proof fn lemma_empty_navigation<T>(c: &ImageContainer<T>)
    requires
        c.wf(),
        c.entries().len() == 0,
    ensures
        !can_advance(c.entries().len() as int, c.current_index()),
        !can_retreat(c.current_index()),
        step_next(c.entries().len() as int, c.current_index()) == c.current_index(),
        step_prev(c.current_index()) == c.current_index(),
        c.active_resource() is None,
{
}

/// An entry whose full-resolution image is not loaded shows its preview;
/// once the full image is stored it shows the full image.
pub proof fn lemma_active_resource_order<T>(entries: Seq<FileEntry<T>>, i: int, full: Image<T>)
    requires
        0 <= i < entries.len(),
        !entries[i].image.is_loaded(),
        full.is_loaded(),
    ensures
        entries[i].active() == entries[i].thumbnail.image,
        entries.update(i, entries[i].with_full(full))[i].active() == full.image,
{
}

/// Stepping forward from entry `i` and back again returns to `i`, and both
/// steps release the full resource of the entry they leave: `i` must decode
/// its image again, and neither entry holds one afterwards.
pub proof fn lemma_away_and_back<T>(entries: Seq<FileEntry<T>>, i: int)
    requires
        0 <= i,
        i + 1 < entries.len(),
    ensures
        step_prev(step_next(entries.len() as int, i)) == i,
        ({
            let after = release_full(release_full(entries, i), i + 1);
            &&& !after[i].image.is_loaded()
            &&& !after[i + 1].image.is_loaded()
            &&& after.len() == entries.len()
        }),
{
}

/// A collection whose current entry has its preview but not its full image
/// shows the preview; a failed full load, which leaves the entries and the
/// cursor as they were, keeps showing it.
pub proof fn lemma_failed_load_keeps_preview<T>(before: &ImageContainer<T>, after: &ImageContainer<T>)
    requires
        before.wf(),
        before.entries().len() > 0,
        !before.entries()[before.current_index()].image.is_loaded(),
        after.entries() == before.entries(),
        after.current_index() == before.current_index(),
    ensures
        before.active_resource() == before.entries()[before.current_index()].thumbnail.image,
        after.active_resource() == before.entries()[before.current_index()].thumbnail.image,
{
}

proof fn lemma_full_count_outside<T>(entries: Seq<FileEntry<T>>, c: int)
    requires
        forall|i: int|
            0 <= i < entries.len() && i != c ==> !(#[trigger] entries[i]).image.is_loaded(),
    ensures
        full_count(entries) == if 0 <= c < entries.len() && entries[c].image.is_loaded() {
            1nat
        } else {
            0nat
        },
    decreases entries.len(),
{
    if entries.len() > 0 {
        let rest = entries.drop_last();
        assert forall|i: int| 0 <= i < rest.len() && i != c implies !(#[trigger] rest[i]).image.is_loaded() by {
            assert(rest[i] == entries[i]);
        }
        lemma_full_count_outside(rest, c);
        if 0 <= c < rest.len() {
            assert(rest[c] == entries[c]);
        }
    }
}

/// In a well-formed collection at most one entry holds a full-resolution
/// resource, and only the current one can.
pub proof fn lemma_at_most_one_full<T>(c: &ImageContainer<T>)
    requires
        c.wf(),
    ensures
        full_count(c.entries()) <= 1,
        full_count(c.entries()) == 1 ==> c.entries()[c.current_index()].image.is_loaded(),
{
    lemma_full_count_outside(c.entries(), c.current_index());
}

} // verus!
