//! Resolving an environment's container image from the daemon's image list.
use vstd::prelude::*;

verus! {

/// An image as the daemon lists it: its id and its repository tags.
#[derive(Clone, Debug)]
pub struct ImageSummary {
    pub id: String,
    pub repo_tags: Option<Vec<String>>,
}

/// The repository tag under which the image labelled `label` is built.
pub open spec fn repo_tag_of(label: Seq<char>) -> Seq<char> {
    "elastio:"@ + label
}

/// `img` carries the repository tag `tag`.
pub open spec fn has_tag(img: ImageSummary, tag: Seq<char>) -> bool {
    img.repo_tags matches Some(tags) && exists|j: int|
        0 <= j < tags@.len() && #[trigger] tags@[j]@ == tag
}

/// The position of the first image that carries `tag`, if any.
pub open spec fn first_tagged(imgs: Seq<ImageSummary>, tag: Seq<char>) -> Option<int>
    decreases imgs.len(),
{
    if imgs.len() == 0 {
        None
    } else {
        match first_tagged(imgs.drop_last(), tag) {
            Some(i) => Some(i),
            None => if has_tag(imgs.last(), tag) { Some(imgs.len() - 1) } else { None },
        }
    }
}

proof fn lemma_first_tagged(imgs: Seq<ImageSummary>, tag: Seq<char>)
    ensures
        match first_tagged(imgs, tag) {
            Some(i) => 0 <= i < imgs.len() && has_tag(imgs[i], tag) && forall|k: int|
                0 <= k < i ==> !#[trigger] has_tag(imgs[k], tag),
            None => forall|k: int| 0 <= k < imgs.len() ==> !#[trigger] has_tag(imgs[k], tag),
        },
    decreases imgs.len(),
{
    if imgs.len() > 0 {
        lemma_first_tagged(imgs.drop_last(), tag);
        assert(forall|k: int| 0 <= k < imgs.len() - 1 ==> imgs.drop_last()[k] == imgs[k]);
    }
}

/// The repository tag of the image for the environment labelled `label`.
pub fn repo_tag(label: &str) -> (r: String)
    ensures
        r@ == repo_tag_of(label@),
{
    let mut r = String::from_str("elastio:");
    r.append(label);
    r
}

fn holds_tag(tags: &Vec<String>, tag: &String) -> (r: bool)
    ensures
        r == exists|j: int| 0 <= j < tags@.len() && #[trigger] tags@[j]@ == tag@,
{
    let mut j: usize = 0;
    while j < tags.len()
        invariant
            j <= tags@.len(),
            forall|k: int| 0 <= k < j ==> #[trigger] tags@[k]@ != tag@,
        decreases tags@.len() - j,
    {
        if tags[j] == *tag {
            assert(tags@[j as int]@ == tag@);
            return true;
        }
        j = j + 1;
    }
    false
}

fn carries_tag(img: &ImageSummary, tag: &String) -> (r: bool)
    ensures
        r == has_tag(*img, tag@),
{
    match &img.repo_tags {
        None => false,
        Some(tags) => holds_tag(tags, tag),
    }
}

/// The id of the first listed image tagged for the environment labelled
/// `label`, or `None` where no image carries that tag.
pub fn find_image_by_label(images: &Vec<ImageSummary>, label: &str) -> (r: Option<String>)
    ensures
        match first_tagged(images@, repo_tag_of(label@)) {
            Some(i) => r matches Some(id) && id@ == images@[i].id@,
            None => r is None,
        },
{
    let tag = repo_tag(label);
    let ghost t = repo_tag_of(label@);
    let mut i: usize = 0;
    while i < images.len()
        invariant
            tag@ == t,
            t == repo_tag_of(label@),
            i <= images@.len(),
            forall|k: int| 0 <= k < i ==> !#[trigger] has_tag(images@[k], t),
        decreases images@.len() - i,
    {
        if carries_tag(&images[i], &tag) {
            proof {
                lemma_first_tagged(images@, t);
                if let Some(j) = first_tagged(images@, t) {
                    if j > i {
                        assert(has_tag(images@[i as int], t));
                    }
                }
            }
            return Some(String::from_str(images[i].id.as_str()));
        }
        i = i + 1;
    }
    proof {
        lemma_first_tagged(images@, t);
        if let Some(j) = first_tagged(images@, t) {
            assert(!has_tag(images@[j], t));
        }
    }
    None
}

} // verus!
