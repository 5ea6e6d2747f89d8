//! An asset index: the game's sounds, languages and textures, stored by hash.
use crate::text::{concat_str, str_eq, to_chars};
use vstd::prelude::*;

verus! {

/// One entry of an asset index: the object's name and its stored file.
pub struct AssetObject {
    pub name: String,
    pub asset: AssetIndex,
}

pub struct Main {
    pub objects: Vec<AssetObject>,
    pub map_to_resources: bool,
}

/// No two objects of an index have the same name: the list is a map keyed by name.
pub open spec fn names_unique(entries: Seq<AssetObject>) -> bool {
    forall|i: int, j: int|
        0 <= i < j < entries.len() ==> #[trigger] entries[i].name@ != #[trigger] entries[j].name@
}

impl Main {
    /// An index with no objects.
    pub fn new(map_to_resources: bool) -> (r: Main)
        ensures
            r.objects@.len() == 0,
            r.map_to_resources == map_to_resources,
            r.wf(),
    {
        Main { objects: Vec::new(), map_to_resources }
    }

    pub open spec fn wf(&self) -> bool {
        names_unique(self.objects@)
    }

    /// Files `asset` under `name`: it takes the place of the entry of that
    /// name if there is one, else it is added at the end.
    pub fn insert(&mut self, name: String, asset: AssetIndex)
        requires
            old(self).wf(),
        ensures
            final(self).wf(),
            (forall|i: int|
                0 <= i < old(self).objects@.len() ==> old(self).objects@[i].name@ != name@)
                ==> final(self).objects@ == old(self).objects@.push((AssetObject { name, asset })),
            forall|i: int|
                0 <= i < old(self).objects@.len() && old(self).objects@[i].name@ == name@
                    ==> final(self).objects@ == old(self).objects@.update(i, (AssetObject { name, asset })),
            final(self).map_to_resources == old(self).map_to_resources,
    {
        let mut i: usize = 0;
        while i < self.objects.len()
            invariant
                0 <= i <= self.objects.len(),
                self.objects@ == old(self).objects@,
                self.map_to_resources == old(self).map_to_resources,
                self.wf(),
                forall|k: int| 0 <= k < i ==> self.objects@[k].name@ != name@,
            decreases self.objects.len() - i,
        {
            if str_eq(self.objects[i].name.as_str(), name.as_str()) {
                self.objects.set(i, AssetObject { name, asset });
                return;
            }
            i += 1;
        }
        self.objects.push(AssetObject { name, asset });
    }
}

/// A stored object, known by the SHA-1 of its content.
pub struct AssetIndex {
    pub hash: String,
    pub size: u64,
}

/// The folder of an object: the first two characters of its hash.
pub open spec fn hash_folder(hash: Seq<char>) -> Seq<char> {
    if hash.len() < 2 {
        hash
    } else {
        hash.take(2)
    }
}

/// Where an object is downloaded from.
pub open spec fn download_url(hash: Seq<char>) -> Seq<char> {
    "https://resources.download.minecraft.net/"@ + hash_folder(hash) + "/"@ + hash
}

impl AssetIndex {
    fn folder(&self) -> (r: String)
        ensures
            r@ == hash_folder(self.hash@),
    {
        let chars = to_chars(self.hash.as_str());
        if chars.len() < 2 {
            self.hash.clone()
        } else {
            let mut r = String::new();
            r.append(self.hash.as_str().substring_char(0, 2));
            r
        }
    }

    /// The URL of the object.
    pub fn get_download_url(&self) -> (r: String)
        ensures
            r@ == download_url(self.hash@),
    {
        let small = self.folder();
        let mut url = concat_str("https://resources.download.minecraft.net/", small.as_str());
        url.append("/");
        url.append(self.hash.as_str());
        url
    }

    /// The object's folder and its path below the objects folder (folder,
    /// then hash).
    pub fn get_download_path(&self) -> (r: (String, Vec<String>))
        ensures
            r.0@ == hash_folder(self.hash@),
            r.1.deep_view() == seq![hash_folder(self.hash@), self.hash@],
    {
        let small = self.folder();
        let mut path: Vec<String> = Vec::new();
        path.push(small.clone());
        path.push(self.hash.clone());
        assert(path.deep_view() =~= seq![hash_folder(self.hash@), self.hash@]);
        (small, path)
    }
}

} // verus!
