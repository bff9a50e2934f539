//! The records that the remote service hands out.

use vstd::prelude::*;

verus! {

/// A named group of wallpapers on the remote side.
#[derive(Debug)]
pub struct Collection {
    pub id: i32,
    /// The name shown to users, by which collections are selected.
    pub label: String,
    pub views: i32,
    pub public: i32,
    /// How many wallpapers the collection is expected to hold.
    pub count: u64,
}

/// A collection as plain values.
pub struct CollectionView {
    pub id: i32,
    pub label: Seq<char>,
    pub views: i32,
    pub public: i32,
    pub count: u64,
}

impl View for Collection {
    type V = CollectionView;

    open spec fn view(&self) -> CollectionView {
        CollectionView {
            id: self.id,
            label: self.label@,
            views: self.views,
            public: self.public,
            count: self.count,
        }
    }
}

impl DeepView for Collection {
    type V = CollectionView;

    open spec fn deep_view(&self) -> CollectionView {
        self@
    }
}

impl Clone for Collection {
    fn clone(&self) -> (copy: Collection)
        ensures
            copy == *self,
    {
        Collection {
            id: self.id,
            label: self.label.clone(),
            views: self.views,
            public: self.public,
            count: self.count,
        }
    }
}

/// The answer to a listing of collections.
#[derive(Debug)]
pub struct Collections {
    pub data: Vec<Collection>,
}

impl View for Collections {
    type V = Seq<CollectionView>;

    open spec fn view(&self) -> Seq<CollectionView> {
        self.data.deep_view()
    }
}

/// Where a page stands among the pages of a collection.
#[derive(Clone, Copy, Debug)]
pub struct Page {
    pub current_page: i32,
    pub last_page: i32,
    pub per_page: i32,
    pub total: u64,
}

/// One remote image: its identifier and the address to fetch it from.
#[derive(Debug)]
pub struct Wallpaper {
    pub id: String,
    /// The full address of the image; its last segment names the local
    /// file.
    pub path: String,
}

/// A wallpaper as plain values.
pub struct WallpaperView {
    pub id: Seq<char>,
    pub path: Seq<char>,
}

impl View for Wallpaper {
    type V = WallpaperView;

    open spec fn view(&self) -> WallpaperView {
        WallpaperView { id: self.id@, path: self.path@ }
    }
}

impl DeepView for Wallpaper {
    type V = WallpaperView;

    open spec fn deep_view(&self) -> WallpaperView {
        self@
    }
}

/// The answer to a listing of one page of a collection.
#[derive(Debug)]
pub struct Wallpapers {
    pub meta: Page,
    pub data: Vec<Wallpaper>,
}

/// A page of wallpapers as plain values.
pub struct WallpapersView {
    pub meta: Page,
    pub data: Seq<WallpaperView>,
}

impl View for Wallpapers {
    type V = WallpapersView;

    open spec fn view(&self) -> WallpapersView {
        WallpapersView { meta: self.meta, data: self.data.deep_view() }
    }
}

} // verus!
