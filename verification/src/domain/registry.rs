//! The registry of domain images: the ELF images uploaded or built in, each
//! under a name and with the kind of domain it implements, and the list of
//! image files registered for each kind.

use vstd::prelude::*;
use crate::assoc::{assoc_map, first_at, lookup, lemma_lookup_first, lemma_lookup_none, lemma_lookup_update, lemma_lookup_push, lemma_lookup_remove_first};
use crate::domain::DomainKind;

verus! {

/// An image as mathematical values: name, then kind and bytes.
pub type ImageView = (Seq<char>, (DomainKind, Seq<u8>));

/// The bytes of the image `name`, provided it implements domains of kind `ty`.
pub open spec fn image_of(images: Map<Seq<char>, (DomainKind, Seq<u8>)>, name: Seq<char>, ty: DomainKind) -> Option<Seq<u8>> {
    if images.contains_key(name) && images[name].0 == ty {
        Some(images[name].1)
    } else {
        None
    }
}

/// An image registered under a name, with the kind it implements.
pub struct DomainImage {
    name: String,
    ty: DomainKind,
    data: Vec<u8>,
}

impl View for DomainImage {
    type V = ImageView;

    closed spec fn view(&self) -> ImageView {
        (self.name@, (self.ty, self.data@))
    }
}

/// An image file registered for a kind of domain: its name and size.
pub struct FileInfo {
    pub ty: DomainKind,
    pub name: String,
    pub size: usize,
}

/// A [`FileInfo`] as mathematical values.
pub type FileView = (DomainKind, Seq<char>, usize);

impl View for FileInfo {
    type V = FileView;

    open spec fn view(&self) -> FileView {
        (self.ty, self.name@, self.size)
    }
}

/// The registry as mathematical values.
pub struct RegistryView {
    /// The images by name.
    pub images: Map<Seq<char>, (DomainKind, Seq<u8>)>,
    /// Every registration that took effect, in order.
    pub files: Seq<FileView>,
}

/// The files registered for kind `ty`, in order.
pub open spec fn files_of_kind(files: Seq<FileView>, ty: DomainKind) -> Seq<FileView> {
    files.filter(|f: FileView| f.0 == ty)
}

/// A registration is skipped when an image of the same name and length is
/// already registered.
pub open spec fn already_registered(r: RegistryView, name: Seq<char>, len: nat) -> bool {
    r.images.contains_key(name) && r.images[name].1.len() == len
}

/// The registry after registering `elf` as image `name` of kind `ty`.
pub open spec fn register_next(r: RegistryView, name: Seq<char>, elf: Seq<u8>, ty: DomainKind) -> RegistryView {
    if already_registered(r, name, elf.len()) {
        r
    } else {
        RegistryView {
            images: r.images.insert(name, (ty, elf)),
            files: r.files.push((ty, name, elf.len() as usize)),
        }
    }
}

/// The registry of domain images.
pub struct DomainElfRegistry {
    images: Vec<DomainImage>,
    files: Vec<FileInfo>,
}

impl DomainElfRegistry {
    spec fn image_seq(&self) -> Seq<ImageView> {
        self.images@.map_values(|e: DomainImage| e@)
    }

    spec fn file_seq(&self) -> Seq<FileView> {
        self.files@.map_values(|f: FileInfo| f@)
    }
}

impl View for DomainElfRegistry {
    type V = RegistryView;

    closed spec fn view(&self) -> RegistryView {
        RegistryView { images: assoc_map(self.image_seq()), files: self.file_seq() }
    }
}

impl DomainElfRegistry {
    /// An empty registry.
    pub fn new() -> (r: Self)
        ensures
            r@.images == Map::<Seq<char>, (DomainKind, Seq<u8>)>::empty(),
            r@.files == Seq::<FileView>::empty(),
    {
        let r = DomainElfRegistry { images: Vec::new(), files: Vec::new() };
        assert(r@.images =~= Map::<Seq<char>, (DomainKind, Seq<u8>)>::empty());
        assert(r@.files =~= Seq::<FileView>::empty());
        r
    }

    /// The position of the first image named `name`.
    fn find(&self, name: &String) -> (r: Option<usize>)
        ensures
            match r {
                Some(i) => first_at(self.image_seq(), name@, i as int),
                None => forall|j: int| 0 <= j < self.image_seq().len() ==> #[trigger] self.image_seq()[j].0 != name@,
            },
    {
        let mut i: usize = 0;
        while i < self.images.len()
            invariant
                i <= self.images.len(),
                forall|j: int| 0 <= j < i ==> #[trigger] self.image_seq()[j].0 != name@,
            decreases self.images.len() - i,
        {
            if self.images[i].name == *name {
                return Some(i);
            }
            i = i + 1;
        }
        None
    }

    /// Registers `elf` as the image `name` implementing domains of kind `ty`,
    /// replacing an image of that name, and records the file for its kind.
    /// When an image of the same name and the same length is already there,
    /// nothing changes and `false` is returned.
    pub fn register_domain_elf(&mut self, name: &str, elf: Vec<u8>, ty: DomainKind) -> (registered: bool)
        ensures
            registered == !already_registered(old(self)@, name@, elf@.len()),
            final(self)@ == register_next(old(self)@, name@, elf@, ty),
    {
        let key = name.to_owned();
        let elf_len = elf.len();
        let ghost old_seq = self.image_seq();
        match self.find(&key) {
            Some(i) => {
                proof { lemma_lookup_first(old_seq, key@, i as int); }
                if self.images[i].data.len() == elf_len {
                    return false;
                }
                let entry = DomainImage { name: key.clone(), ty, data: elf };
                self.images.set(i, entry);
                proof {
                    assert(self.image_seq() =~= old_seq.update(i as int, (key@, (ty, elf@))));
                    assert forall|k: Seq<char>| #[trigger] lookup(self.image_seq(), k) == (if k == key@ {
                        Some((ty, elf@))
                    } else {
                        lookup(old_seq, k)
                    }) by {
                        lemma_lookup_update(old_seq, key@, i as int, (ty, elf@), k);
                    }
                    assert(assoc_map(self.image_seq()) =~= assoc_map(old_seq).insert(key@, (ty, elf@)));
                }
            },
            None => {
                proof { lemma_lookup_none(old_seq, key@); }
                let entry = DomainImage { name: key.clone(), ty, data: elf };
                self.images.push(entry);
                proof {
                    assert(self.image_seq() =~= old_seq.push((key@, (ty, elf@))));
                    assert forall|k: Seq<char>| #[trigger] lookup(self.image_seq(), k) == (if k == key@ {
                        Some((ty, elf@))
                    } else {
                        lookup(old_seq, k)
                    }) by {
                        lemma_lookup_push(old_seq, (key@, (ty, elf@)), k);
                    }
                    assert(assoc_map(self.image_seq()) =~= assoc_map(old_seq).insert(key@, (ty, elf@)));
                }
            },
        }
        let ghost old_files = self.file_seq();
        self.files.push(FileInfo { ty, name: key, size: elf_len });
        assert(self.file_seq() =~= old_files.push((ty, name@, elf_len)));
        true
    }

    /// Removes every image named `name`; the file list is kept.
    pub fn unregister_domain_elf(&mut self, name: &str)
        ensures
            final(self)@.images == old(self)@.images.remove(name@),
            final(self)@.files == old(self)@.files,
    {
        let key = name.to_owned();
        let ghost old_seq = self.image_seq();
        loop
            invariant
                forall|k: Seq<char>| k != key@ ==> #[trigger] lookup(self.image_seq(), k) == lookup(old_seq, k),
                self.file_seq() == old(self).file_seq(),
                key@ == name@,
            ensures
                lookup(self.image_seq(), name@) is None,
                forall|k: Seq<char>| k != key@ ==> #[trigger] lookup(self.image_seq(), k) == lookup(old_seq, k),
                self.file_seq() == old(self).file_seq(),
            decreases self.images.len(),
        {
            match self.find(&key) {
                Some(i) => {
                    let ghost before = self.image_seq();
                    let _ = self.images.remove(i);
                    proof {
                        assert(self.image_seq() =~= before.remove(i as int));
                        assert forall|k: Seq<char>| k != key@ implies #[trigger] lookup(self.image_seq(), k) == lookup(old_seq, k) by {
                            lemma_lookup_remove_first(before, key@, i as int, k);
                        }
                    }
                },
                None => {
                    proof {
                        lemma_lookup_none(self.image_seq(), key@);
                        lemma_lookup_none(self.image_seq(), name@);
                    }
                    break;
                },
            }
        }
        assert(assoc_map(self.image_seq()) =~= assoc_map(old_seq).remove(name@));
    }

    /// The bytes of image `name` for building a domain of kind `ty`: none when
    /// no such image is registered or it implements another kind.
    pub fn image_for(&self, name: &str, ty: DomainKind) -> (r: Option<Vec<u8>>)
        ensures
            opt_bytes(r) == image_of(self@.images, name@, ty),
    {
        let key = name.to_owned();
        match self.find(&key) {
            Some(i) => {
                proof { lemma_lookup_first(self.image_seq(), key@, i as int); }
                if self.images[i].ty == ty {
                    let d = self.images[i].data.clone();
                    assert(d@ =~= self.images@[i as int].data@);
                    Some(d)
                } else {
                    None
                }
            },
            None => {
                proof { lemma_lookup_none(self.image_seq(), key@); }
                None
            },
        }
    }

    /// The image a domain of kind `ty` is built from: the
    /// given image, if any, is registered first under `name`; then the image
    /// of that name is taken, provided it implements kind `ty`.
    pub fn create_domain_image(&mut self, ty: DomainKind, name: &str, elf: Option<Vec<u8>>) -> (r: Option<Vec<u8>>)
        ensures
            final(self)@ == match elf {
                Some(e) => register_next(old(self)@, name@, e@, ty),
                None => old(self)@,
            },
            opt_bytes(r) == image_of(final(self)@.images, name@, ty),
    {
        match elf {
            Some(e) => {
                let _ = self.register_domain_elf(name, e, ty);
            },
            None => {},
        }
        self.image_for(name, ty)
    }

    /// The files registered for kind `ty`, in order of registration.
    pub fn files_of(&self, ty: DomainKind) -> (r: Vec<FileInfo>)
        ensures
            r@.map_values(|f: FileInfo| f@) == files_of_kind(self@.files, ty),
    {
        let mut out: Vec<FileInfo> = Vec::new();
        let mut i: usize = 0;
        while i < self.files.len()
            invariant
                i <= self.files.len(),
                out@.map_values(|f: FileInfo| f@) == files_of_kind(self.file_seq().take(i as int), ty),
            decreases self.files.len() - i,
        {
            let ghost before = out@.map_values(|f: FileInfo| f@);
            let f = &self.files[i];
            proof {
                reveal(Seq::filter);
                assert(self.file_seq().take(i + 1).drop_last() =~= self.file_seq().take(i as int));
                assert(self.file_seq().take(i + 1).last() == f@);
            }
            if f.ty == ty {
                out.push(FileInfo { ty: f.ty, name: f.name.clone(), size: f.size });
                assert(out@.map_values(|f: FileInfo| f@) =~= before.push(f@));
            }
            i = i + 1;
        }
        assert(self.file_seq().take(self.files.len() as int) =~= self.file_seq());
        out
    }
}

/// The view of an optional byte vector.
pub open spec fn opt_bytes(v: Option<Vec<u8>>) -> Option<Seq<u8>> {
    match v {
        Some(x) => Some(x@),
        None => None,
    }
}

/// Registering an image makes it the one found under its name, for its kind
/// only, and leaves every other name as it was; unless an image of that name
/// and length was already there, in which case nothing changes.
pub proof fn lemma_register_then_find(
    r: RegistryView,
    name: Seq<char>,
    elf: Seq<u8>,
    ty: DomainKind,
    other_ty: DomainKind,
    other: Seq<char>,
)
    requires
        other_ty != ty,
        other != name,
    ensures
        !already_registered(r, name, elf.len()) ==> {
            &&& image_of(register_next(r, name, elf, ty).images, name, ty) == Some(elf)
            &&& image_of(register_next(r, name, elf, ty).images, name, other_ty) is None
        },
        already_registered(r, name, elf.len()) ==> register_next(r, name, elf, ty) == r,
        image_of(register_next(r, name, elf, ty).images, other, ty) == image_of(r.images, other, ty),
{
}

/// After an image is unregistered, no domain of any kind can be built from it.
pub proof fn lemma_unregister_forgets(r: RegistryView, name: Seq<char>, ty: DomainKind)
    ensures
        image_of(r.images.remove(name), name, ty) is None,
{
}

} // verus!
