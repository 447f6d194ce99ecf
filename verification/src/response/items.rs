//! The property results a `query` response carries for each page.
use crate::types::NAMESPACE;
use vstd::prelude::*;

verus! {

/// The results of one property for one page.
pub trait PropResults: Sized {
    type ItemType;

    /// The results carry nothing.
    spec fn spec_empty(&self) -> bool;

    /// The items of the results, in order.
    spec fn spec_items(self) -> Seq<Self::ItemType>;

    /// Whether the results carry nothing.
    fn empty(&self) -> (r: bool)
        ensures
            r == self.spec_empty(),
    ;

    /// The items of the results, in order.
    fn into_items(self) -> (r: Vec<Self::ItemType>)
        ensures
            r@ == self.spec_items(),
    ;
}

/// One item of property results.
pub trait Item {
    /// The item carries nothing.
    spec fn spec_is_empty(&self) -> bool;

    /// Whether the item carries nothing.
    fn is_empty(&self) -> (r: bool)
        ensures
            r == self.spec_is_empty(),
    ;
}

/// Every item of `s` is empty.
pub open spec fn all_empty<T: Item>(s: Seq<T>) -> bool {
    forall|i: int| 0 <= i < s.len() ==> (#[trigger] s[i]).spec_is_empty()
}

fn vec_all_empty<T: Item>(v: &Vec<T>) -> (r: bool)
    ensures
        r == all_empty(v@),
{
    let mut i: usize = 0;
    while i < v.len()
        invariant
            0 <= i <= v.len(),
            forall|j: int| 0 <= j < i ==> (#[trigger] v@[j]).spec_is_empty(),
        decreases v.len() - i,
    {
        if !v[i].is_empty() {
            return false;
        }
        i = i + 1;
    }
    true
}

/// The categories a page belongs to.
#[derive(Debug, PartialEq, Eq)]
pub struct Categories(pub Vec<CategoryItem>);

impl PropResults for Categories {
    type ItemType = CategoryItem;

    open spec fn spec_empty(&self) -> bool {
        all_empty(self.0@)
    }

    open spec fn spec_items(self) -> Seq<CategoryItem> {
        self.0@
    }

    fn empty(&self) -> (r: bool) {
        vec_all_empty(&self.0)
    }

    fn into_items(self) -> (r: Vec<CategoryItem>) {
        self.0
    }
}

/// A category a page belongs to.
#[derive(Debug, PartialEq, Eq)]
pub struct CategoryItem {
    pub ns: NAMESPACE,
    pub title: String,
}

impl Item for CategoryItem {
    open spec fn spec_is_empty(&self) -> bool {
        false
    }

    fn is_empty(&self) -> (r: bool) {
        false
    }
}

/// The member counts of a category.
#[derive(Debug, PartialEq, Eq)]
pub struct CategoryInfo(pub CategoryInfoItem);

impl PropResults for CategoryInfo {
    type ItemType = CategoryInfoItem;

    open spec fn spec_empty(&self) -> bool {
        self.0.spec_is_empty()
    }

    open spec fn spec_items(self) -> Seq<CategoryInfoItem> {
        seq![self.0]
    }

    fn empty(&self) -> (r: bool) {
        self.0.is_empty()
    }

    fn into_items(self) -> (r: Vec<CategoryInfoItem>) {
        let mut v = Vec::new();
        v.push(self.0);
        v
    }
}

/// Member counts of a category.
#[derive(Debug, PartialEq, Eq, Clone, Copy)]
pub struct CategoryInfoItem {
    pub size: Option<u32>,
    pub pages: Option<u32>,
    pub files: Option<u32>,
    pub subcats: Option<u32>,
}

impl Item for CategoryInfoItem {
    open spec fn spec_is_empty(&self) -> bool {
        self.size is None && self.pages is None && self.files is None && self.subcats is None
    }

    fn is_empty(&self) -> (r: bool) {
        if self.size.is_some() {
            false
        } else if self.pages.is_some() {
            false
        } else if self.files.is_some() {
            false
        } else if self.subcats.is_some() {
            false
        } else {
            true
        }
    }
}

/// The images used on a page.
#[derive(Debug, PartialEq, Eq)]
pub struct Images(pub Vec<ImageItem>);

impl PropResults for Images {
    type ItemType = ImageItem;

    open spec fn spec_empty(&self) -> bool {
        all_empty(self.0@)
    }

    open spec fn spec_items(self) -> Seq<ImageItem> {
        self.0@
    }

    fn empty(&self) -> (r: bool) {
        vec_all_empty(&self.0)
    }

    fn into_items(self) -> (r: Vec<ImageItem>) {
        self.0
    }
}

/// An image used on a page.
#[derive(Debug, PartialEq, Eq)]
pub struct ImageItem {
    pub ns: u32,
    pub title: String,
}

impl Item for ImageItem {
    open spec fn spec_is_empty(&self) -> bool {
        false
    }

    fn is_empty(&self) -> (r: bool) {
        false
    }
}

/// The revisions of a file.
#[derive(Debug, PartialEq, Eq)]
pub struct ImageInfo(pub Vec<ImageInfoItem>);

impl PropResults for ImageInfo {
    type ItemType = ImageInfoItem;

    open spec fn spec_empty(&self) -> bool {
        all_empty(self.0@)
    }

    open spec fn spec_items(self) -> Seq<ImageInfoItem> {
        self.0@
    }

    fn empty(&self) -> (r: bool) {
        vec_all_empty(&self.0)
    }

    fn into_items(self) -> (r: Vec<ImageInfoItem>) {
        self.0
    }
}

/// One revision of a file.
#[derive(Debug, PartialEq, Eq)]
pub struct ImageInfoItem {
    pub canonicaltitle: Option<String>,
    pub size: Option<u32>,
    pub width: Option<u32>,
    pub height: Option<u32>,
    pub url: Option<String>,
    pub timestamp: Option<String>,
}

impl Item for ImageInfoItem {
    open spec fn spec_is_empty(&self) -> bool {
        &&& self.canonicaltitle is None
        &&& self.size is None
        &&& self.width is None
        &&& self.height is None
        &&& self.url is None
        &&& self.timestamp is None
    }

    fn is_empty(&self) -> (r: bool) {
        if self.canonicaltitle.is_some() {
            false
        } else if self.size.is_some() {
            false
        } else if self.width.is_some() {
            false
        } else if self.height.is_some() {
            false
        } else if self.url.is_some() {
            false
        } else if self.timestamp.is_some() {
            false
        } else {
            true
        }
    }
}

/// The lead image of a page.
#[derive(Debug, PartialEq, Eq)]
pub struct PageImages(pub PageImageItem);

impl PropResults for PageImages {
    type ItemType = PageImageItem;

    open spec fn spec_empty(&self) -> bool {
        self.0.spec_is_empty()
    }

    open spec fn spec_items(self) -> Seq<PageImageItem> {
        seq![self.0]
    }

    fn empty(&self) -> (r: bool) {
        self.0.is_empty()
    }

    fn into_items(self) -> (r: Vec<PageImageItem>) {
        let mut v = Vec::new();
        v.push(self.0);
        v
    }
}

/// The lead image of a page.
#[derive(Debug, PartialEq, Eq)]
pub struct PageImageItem {
    pub original: Option<Original>,
    pub pageimage: Option<String>,
}

impl Item for PageImageItem {
    open spec fn spec_is_empty(&self) -> bool {
        self.original is None && self.pageimage is None
    }

    fn is_empty(&self) -> (r: bool) {
        if self.original.is_some() {
            false
        } else if self.pageimage.is_some() {
            false
        } else {
            true
        }
    }
}

/// The original file of a lead image.
#[derive(Debug, PartialEq, Eq)]
pub struct Original {
    pub source: String,
    pub width: u32,
    pub height: u32,
}

/// Basic page information.
#[derive(Debug, PartialEq, Eq)]
pub struct Info(pub InfoItem);

impl PropResults for Info {
    type ItemType = InfoItem;

    open spec fn spec_empty(&self) -> bool {
        self.0.spec_is_empty()
    }

    open spec fn spec_items(self) -> Seq<InfoItem> {
        seq![self.0]
    }

    fn empty(&self) -> (r: bool) {
        self.0.is_empty()
    }

    fn into_items(self) -> (r: Vec<InfoItem>) {
        let mut v = Vec::new();
        v.push(self.0);
        v
    }
}

/// Basic page information.
#[derive(Debug, PartialEq, Eq)]
pub struct InfoItem {
    pub contentmodel: Option<String>,
    pub length: Option<u32>,
}

impl Item for InfoItem {
    open spec fn spec_is_empty(&self) -> bool {
        self.contentmodel is None && self.length is None
    }

    fn is_empty(&self) -> (r: bool) {
        if self.contentmodel.is_some() {
            false
        } else if self.length.is_some() {
            false
        } else {
            true
        }
    }
}

} // verus!
