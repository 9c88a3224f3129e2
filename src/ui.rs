use vstd::prelude::*;

verus! {

/// A rectangular frame: four corner glyphs, lines between them, and an
/// optional title on the top edge.
pub struct FrameBorder {
    top: u32,
    left: u32,
    width: u32,
    height: u32,
    corners: [char; 4],
    title: Option<String>,
}

pub const MIN_BORDER_SIZE: u32 = 3;

impl FrameBorder {
    pub closed spec fn top_spec(&self) -> u32 {
        self.top
    }

    pub closed spec fn left_spec(&self) -> u32 {
        self.left
    }

    pub closed spec fn width_spec(&self) -> u32 {
        self.width
    }

    pub closed spec fn height_spec(&self) -> u32 {
        self.height
    }

    pub closed spec fn corners_spec(&self) -> Seq<char> {
        self.corners@
    }

    pub closed spec fn title_spec(&self) -> Option<String> {
        self.title
    }

    /// The frame whose top-left corner is at `(left, top)` and whose opposite
    /// corner is `width` columns right and `height` rows down. A frame under
    /// three tiles wide or high cannot hold its corners and lines, and is refused.
    pub fn new(
        top: u32,
        left: u32,
        width: u32,
        height: u32,
        corners: [char; 4],
        title: Option<String>,
    ) -> (r: Result<FrameBorder, String>)
        ensures
            r is Err <==> (width < MIN_BORDER_SIZE || height < MIN_BORDER_SIZE),
            r matches Err(e) ==> e@ == "Border must have minimum width and height of 3 tiles to acommodate all elements"@,
            r matches Ok(f) ==> f.top_spec() == top && f.left_spec() == left && f.width_spec() == width
                && f.height_spec() == height && f.corners_spec() == corners@ && f.title_spec() == title,
    {
        if width < MIN_BORDER_SIZE || height < MIN_BORDER_SIZE {
            Err("Border must have minimum width and height of 3 tiles to acommodate all elements".to_owned())
        } else {
            Ok(FrameBorder { top, left, width, height, corners, title })
        }
    }

    pub fn top(&self) -> (r: u32)
        ensures
            r == self.top_spec(),
    {
        self.top
    }

    pub fn left(&self) -> (r: u32)
        ensures
            r == self.left_spec(),
    {
        self.left
    }

    pub fn width(&self) -> (r: u32)
        ensures
            r == self.width_spec(),
    {
        self.width
    }

    pub fn height(&self) -> (r: u32)
        ensures
            r == self.height_spec(),
    {
        self.height
    }

    /// The corner glyphs: top left, top right, bottom right, bottom left.
    pub fn corners(&self) -> (r: [char; 4])
        ensures
            r@ == self.corners_spec(),
    {
        self.corners
    }

    pub fn title(&self) -> (r: &Option<String>)
        ensures
            *r == self.title_spec(),
    {
        &self.title
    }
}

} // verus!
