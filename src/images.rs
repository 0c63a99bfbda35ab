use vstd::prelude::*;

use crate::actions::{FULL_SIMILARITY, ImageInfo, PixelInfo, Point, RawScreenshot};

verus! {

/// How an image query searches the screen.
#[derive(Clone, Copy, Debug, PartialEq, Eq, Structural)]
pub enum SearchMethod {
    /// Pixel-for-pixel comparison with the colour bitmap.
    Exact,
    /// Normalized cross-correlation with the grayscale bitmap.
    Approximate,
    /// The query holds no bitmap: it is answered with a score of 0.
    NoImage,
}

/// A rectangle of the screen given by two opposite corners.
#[derive(Clone, Copy, Debug, PartialEq, Eq, Structural)]
pub struct Region {
    pub x1: i64,
    pub y1: i64,
    pub x2: i64,
    pub y2: i64,
}

/// A rectangle of the screen given by its top-left corner and its size.
#[derive(Clone, Copy, Debug, PartialEq, Eq, Structural)]
pub struct CaptureRect {
    pub left: i64,
    pub top: i64,
    pub width: u64,
    pub height: u64,
}

/// Whether a query holds, and where to put the cursor if it should move.
#[derive(Clone, Copy, Debug, PartialEq, Eq, Structural)]
pub struct ConditionOutcome {
    pub holds: bool,
    pub move_to: Option<Point>,
}

pub open spec fn search_method_of(info: ImageInfo) -> SearchMethod {
    if info.screenshot_raw is None {
        SearchMethod::NoImage
    } else if info.image_similarity == FULL_SIMILARITY {
        SearchMethod::Exact
    } else {
        SearchMethod::Approximate
    }
}

/// The search method of an image query: a threshold of `FULL_SIMILARITY`
/// selects the exact comparison, any other threshold the approximate one.
pub fn image_search_method(info: &ImageInfo) -> (r: SearchMethod)
    ensures
        r == search_method_of(*info),
        info.screenshot_raw is Some ==> (r == SearchMethod::Exact <==> info.image_similarity
            == FULL_SIMILARITY),
        info.screenshot_raw is Some ==> (r == SearchMethod::Approximate <==> info.image_similarity
            != FULL_SIMILARITY),
{
    if info.screenshot_raw.is_none() {
        SearchMethod::NoImage
    } else if info.image_similarity == FULL_SIMILARITY {
        SearchMethod::Exact
    } else {
        SearchMethod::Approximate
    }
}

/// The rectangle that an image query searches; none for the whole desktop.
pub fn image_search_region(info: &ImageInfo) -> (r: Option<Region>)
    ensures
        r == (match (info.search_location_left_top, info.search_location_width_height) {
            (Some(lt), Some(wh)) => Some(
                Region {
                    x1: lt.0 as i64,
                    y1: lt.1 as i64,
                    x2: (lt.0 + wh.0) as i64,
                    y2: (lt.1 + wh.1) as i64,
                },
            ),
            _ => None,
        }),
{
    match (info.search_location_left_top, info.search_location_width_height) {
        (Some(lt), Some(wh)) => Some(
            Region {
                x1: lt.0 as i64,
                y1: lt.1 as i64,
                x2: lt.0 as i64 + wh.0 as i64,
                y2: lt.1 as i64 + wh.1 as i64,
            },
        ),
        _ => None,
    }
}

/// The rectangle that a pixel query searches.
pub fn pixel_search_region(info: &PixelInfo) -> (r: Region)
    ensures
        r == (Region {
            x1: info.search_location_left_top.0 as i64,
            y1: info.search_location_left_top.1 as i64,
            x2: (info.search_location_left_top.0 + info.search_location_width_height.0) as i64,
            y2: (info.search_location_left_top.1 + info.search_location_width_height.1) as i64,
        }),
{
    let lt = info.search_location_left_top;
    let wh = info.search_location_width_height;
    Region { x1: lt.0 as i64, y1: lt.1 as i64, x2: lt.0 as i64 + wh.0 as i64, y2: lt.1 as i64 + wh.1 as i64 }
}

/// Whether an image query holds, given the best score found (in millionths)
/// and where it was found. A query that checks for absence holds when the
/// score is below the threshold; otherwise it holds at or above it, and may
/// move the cursor to the match.
pub fn image_condition(info: &ImageInfo, score: u32, found_at: Point) -> (r: ConditionOutcome)
    ensures
        r.holds == (if info.check_if_not_found {
            score < info.image_similarity
        } else {
            score >= info.image_similarity
        }),
        r.move_to == (if !info.check_if_not_found && r.holds && info.move_mouse_if_found {
            Some(found_at)
        } else {
            None::<Point>
        }),
{
    if info.check_if_not_found {
        ConditionOutcome { holds: score < info.image_similarity, move_to: None }
    } else if score >= info.image_similarity {
        ConditionOutcome {
            holds: true,
            move_to: if info.move_mouse_if_found {
                Some(found_at)
            } else {
                None
            },
        }
    } else {
        ConditionOutcome { holds: false, move_to: None }
    }
}

/// Whether a pixel query holds, given where the colour was found if anywhere.
pub fn pixel_condition(info: &PixelInfo, found: Option<Point>) -> (r: ConditionOutcome)
    ensures
        r.holds == (if info.check_if_not_found {
            found is None
        } else {
            found is Some
        }),
        r.move_to == (if !info.check_if_not_found && info.move_mouse_if_found {
            found
        } else {
            None::<Point>
        }),
{
    if info.check_if_not_found {
        ConditionOutcome { holds: found.is_none(), move_to: None }
    } else {
        ConditionOutcome {
            holds: found.is_some(),
            move_to: if info.move_mouse_if_found {
                found
            } else {
                None
            },
        }
    }
}

/// Pixel `k` of a 4-byte-per-pixel buffer has this red, green and blue.
pub open spec fn pixel_is(p: Seq<u8>, k: int, color: (u8, u8, u8)) -> bool {
    p[4 * k + 2] == color.0 && p[4 * k + 1] == color.1 && p[4 * k] == color.2
}

/// The screen position of pixel `k` of a screenshot.
pub open spec fn pixel_position(shot: RawScreenshot, k: int) -> Point {
    Point {
        x: (k % (shot.width as int) + shot.x) as i32,
        y: (k / (shot.width as int) + shot.y) as i32,
    }
}

/// A screenshot whose pixel positions are all valid screen coordinates.
pub open spec fn on_screen(shot: RawScreenshot) -> bool {
    &&& shot.wf()
    &&& shot.x + shot.width <= i32::MAX
    &&& shot.y + shot.height <= i32::MAX
}

proof fn lemma_pixel_in_range(k: int, w: int, h: int)
    requires
        0 <= k < w * h,
        0 < w,
    ensures
        4 * k + 3 < w * h * 4,
        0 <= k % w < w,
        0 <= k / w < h,
{
    assert(0 <= k / w < h) by (nonlinear_arith)
        requires
            0 <= k < w * h,
            0 < w,
    ;
    assert(0 <= k % w < w) by (nonlinear_arith)
        requires
            0 < w,
    ;
}

/// Finds the first pixel, row by row, that has the given red, green and blue,
/// and returns its screen position.
pub fn find_pixel(screenshot: &RawScreenshot, color: (u8, u8, u8)) -> (r: Option<Point>)
    requires
        on_screen(*screenshot),
    ensures
        r is None ==> forall|k: int|
            0 <= k < screenshot.width * screenshot.height ==> !#[trigger] pixel_is(
                screenshot.pixels@,
                k,
                color,
            ),
        r matches Some(p) ==> exists|k: int|
            0 <= k < screenshot.width * screenshot.height && #[trigger] pixel_is(
                screenshot.pixels@,
                k,
                color,
            ) && (forall|j: int| 0 <= j < k ==> !#[trigger] pixel_is(screenshot.pixels@, j, color))
                && p == pixel_position(*screenshot, k),
{
    let w = screenshot.width;
    let len = screenshot.pixels.len();
    let n = len / 4;
    assert(n == screenshot.width * screenshot.height);
    assert(n * 4 == len);
    let mut k: usize = 0;
    while k < n
        invariant
            n == screenshot.width * screenshot.height,
            screenshot.pixels@.len() == n * 4,
            n * 4 == len,
            on_screen(*screenshot),
            w == screenshot.width,
            k <= n,
            forall|j: int| 0 <= j < k ==> !#[trigger] pixel_is(screenshot.pixels@, j, color),
        decreases n - k,
    {
        let b = screenshot.pixels[4 * k];
        let g = screenshot.pixels[4 * k + 1];
        let red = screenshot.pixels[4 * k + 2];
        if red == color.0 && g == color.1 && b == color.2 {
            proof {
                let h = screenshot.height as int;
                assert(w > 0) by (nonlinear_arith)
                    requires
                        0 <= k < w * h,
                ;
                lemma_pixel_in_range(k as int, w as int, h);
                assert((k % w) < w <= 0x1_0000_0000);
                assert((k / w) < h <= 0x1_0000_0000);
                assert(pixel_is(screenshot.pixels@, k as int, color));
            }
            let p = Point {
                x: ((k % w) as i64 + screenshot.x as i64) as i32,
                y: ((k / w) as i64 + screenshot.y as i64) as i32,
            };
            return Some(p);
        }
        k = k + 1;
    }
    None
}

/// Byte `c` of pixel (`x`, `y`) of a 4-byte-per-pixel bitmap of width `w`.
pub open spec fn byte_at(p: Seq<u8>, w: int, x: int, y: int, c: int) -> u8 {
    p[(y * w + x) * 4 + c]
}

/// The template lies inside the screenshot with its top-left corner at (`ox`, `oy`).
pub open spec fn fits_at(shot: RawScreenshot, tpl: RawScreenshot, ox: int, oy: int) -> bool {
    0 <= ox && ox + tpl.width <= shot.width && 0 <= oy && oy + tpl.height <= shot.height
}

/// Every byte of the template equals the screenshot's byte under it, with the
/// template's top-left corner at (`ox`, `oy`).
pub open spec fn matches_at(shot: RawScreenshot, tpl: RawScreenshot, ox: int, oy: int) -> bool {
    forall|x: int, y: int, c: int|
        0 <= x < tpl.width && 0 <= y < tpl.height && 0 <= c < 4 ==> byte_at(
            shot.pixels@,
            shot.width as int,
            ox + x,
            oy + y,
            c,
        ) == #[trigger] byte_at(tpl.pixels@, tpl.width as int, x, y, c)
}

/// Positions are searched column by column: (`ax`, `ay`) comes before (`bx`, `by`).
pub open spec fn searched_before(ax: int, ay: int, bx: int, by: int) -> bool {
    ax < bx || (ax == bx && ay < by)
}

/// The screen position of the centre of the template placed at (`ox`, `oy`).
pub open spec fn match_center(shot: RawScreenshot, tpl: RawScreenshot, ox: int, oy: int) -> Point {
    Point {
        x: (ox + tpl.width as int / 2 + shot.x) as i32,
        y: (oy + tpl.height as int / 2 + shot.y) as i32,
    }
}

fn offset(w: usize, h: usize, len: usize, x: usize, y: usize) -> (r: usize)
    requires
        x < w,
        y < h,
        len == w * h * 4,
    ensures
        r == (y * w + x) * 4,
        r + 3 < len,
{
    proof {
        assert(y * w <= (h - 1) * w) by (nonlinear_arith)
            requires
                y < h,
        ;
        assert((h - 1) * w + w == h * w) by (nonlinear_arith);
        assert((y * w + x) * 4 + 3 < w * h * 4) by (nonlinear_arith)
            requires
                y * w <= (h - 1) * w,
                (h - 1) * w + w == h * w,
                x < w,
        ;
    }
    (y * w + x) * 4
}

fn matches_here(shot: &RawScreenshot, tpl: &RawScreenshot, ox: usize, oy: usize) -> (r: bool)
    requires
        shot.wf(),
        tpl.wf(),
        fits_at(*shot, *tpl, ox as int, oy as int),
    ensures
        r == matches_at(*shot, *tpl, ox as int, oy as int),
{
    let sp = &shot.pixels;
    let tp = &tpl.pixels;
    let ghost sw = shot.width as int;
    let ghost tw = tpl.width as int;
    let mut x: usize = 0;
    while x < tpl.width
        invariant
            shot.wf(),
            tpl.wf(),
            sp == &shot.pixels,
            tp == &tpl.pixels,
            sw == shot.width,
            tw == tpl.width,
            fits_at(*shot, *tpl, ox as int, oy as int),
            x <= tpl.width,
            forall|x1: int, y1: int, c: int|
                0 <= x1 < x && 0 <= y1 < tpl.height && 0 <= c < 4 ==> byte_at(
                    sp@,
                    sw,
                    ox + x1,
                    oy + y1,
                    c,
                ) == #[trigger] byte_at(tp@, tw, x1, y1, c),
        decreases tpl.width - x,
    {
        let mut y: usize = 0;
        while y < tpl.height
            invariant
                shot.wf(),
                tpl.wf(),
                sp == &shot.pixels,
                tp == &tpl.pixels,
                sw == shot.width,
                tw == tpl.width,
                fits_at(*shot, *tpl, ox as int, oy as int),
                x < tpl.width,
                y <= tpl.height,
                forall|x1: int, y1: int, c: int|
                    0 <= x1 < x && 0 <= y1 < tpl.height && 0 <= c < 4 ==> byte_at(
                        sp@,
                        sw,
                        ox + x1,
                        oy + y1,
                        c,
                    ) == #[trigger] byte_at(tp@, tw, x1, y1, c),
                forall|y1: int, c: int|
                    0 <= y1 < y && 0 <= c < 4 ==> byte_at(sp@, sw, ox + x, oy + y1, c)
                        == #[trigger] byte_at(tp@, tw, x as int, y1, c),
            decreases tpl.height - y,
        {
            let si = offset(shot.width, shot.height, sp.len(), ox + x, oy + y);
            let ti = offset(tpl.width, tpl.height, tp.len(), x, y);
            let same = sp[si] == tp[ti] && sp[si + 1] == tp[ti + 1] && sp[si + 2] == tp[ti + 2]
                && sp[si + 3] == tp[ti + 3];
            if !same {
                proof {
                    let c: int = if sp@[si as int] != tp@[ti as int] {
                        0
                    } else if sp@[si + 1] != tp@[ti + 1] {
                        1
                    } else if sp@[si + 2] != tp@[ti + 2] {
                        2
                    } else {
                        3
                    };
                    assert(byte_at(sp@, sw, ox + x, oy + y, c) != byte_at(tp@, tw, x as int, y as int, c));
                }
                return false;
            }
            proof {
                assert forall|y1: int, c: int|
                    0 <= y1 < y + 1 && 0 <= c < 4 implies byte_at(sp@, sw, ox + x, oy + y1, c)
                    == #[trigger] byte_at(tp@, tw, x as int, y1, c) by {
                    if y1 == y {
                        assert(byte_at(sp@, sw, ox + x, oy + y1, c) == sp@[si + c]);
                        assert(byte_at(tp@, tw, x as int, y1, c) == tp@[ti + c]);
                    }
                }
            }
            y = y + 1;
        }
        x = x + 1;
    }
    true
}

/// Finds the template exactly, pixel for pixel, in the screenshot: the first
/// position, column by column, where every byte matches. Returns the screen
/// position of the centre of the match.
pub fn fast_find_image(template: &RawScreenshot, screenshot: &RawScreenshot) -> (r: Option<Point>)
    requires
        template.wf(),
        on_screen(*screenshot),
    ensures
        r is None ==> forall|ox: int, oy: int|
            fits_at(*screenshot, *template, ox, oy) ==> !#[trigger] matches_at(
                *screenshot,
                *template,
                ox,
                oy,
            ),
        r matches Some(p) ==> exists|ox: int, oy: int|
            {
                &&& fits_at(*screenshot, *template, ox, oy)
                &&& #[trigger] matches_at(*screenshot, *template, ox, oy)
                &&& forall|ax: int, ay: int|
                    fits_at(*screenshot, *template, ax, ay) && searched_before(ax, ay, ox, oy)
                        ==> !#[trigger] matches_at(*screenshot, *template, ax, ay)
                &&& p == match_center(*screenshot, *template, ox, oy)
            },
{
    if template.width > screenshot.width || template.height > screenshot.height {
        return None;
    }
    let last_x = screenshot.width - template.width;
    let last_y = screenshot.height - template.height;
    let mut ox: usize = 0;
    loop
        invariant
            template.wf(),
            on_screen(*screenshot),
            last_x == screenshot.width - template.width,
            last_y == screenshot.height - template.height,
            ox <= last_x,
            forall|ax: int, ay: int|
                fits_at(*screenshot, *template, ax, ay) && ax < ox ==> !#[trigger] matches_at(
                    *screenshot,
                    *template,
                    ax,
                    ay,
                ),
        decreases last_x - ox,
    {
        let mut oy: usize = 0;
        loop
            invariant
                template.wf(),
                on_screen(*screenshot),
                last_x == screenshot.width - template.width,
                last_y == screenshot.height - template.height,
                ox <= last_x,
                oy <= last_y,
                forall|ax: int, ay: int|
                    fits_at(*screenshot, *template, ax, ay) && searched_before(ax, ay, ox as int, oy as int)
                        ==> !#[trigger] matches_at(*screenshot, *template, ax, ay),
            ensures
                forall|ax: int, ay: int|
                    fits_at(*screenshot, *template, ax, ay) && ax <= ox ==> !#[trigger] matches_at(
                        *screenshot,
                        *template,
                        ax,
                        ay,
                    ),
            decreases last_y - oy,
        {
            if matches_here(screenshot, template, ox, oy) {
                proof {
                    assert(fits_at(*screenshot, *template, ox as int, oy as int));
                }
                let p = Point {
                    x: ((ox + template.width / 2) as i64 + screenshot.x as i64) as i32,
                    y: ((oy + template.height / 2) as i64 + screenshot.y as i64) as i32,
                };
                return Some(p);
            }
            assert(forall|ax: int, ay: int|
                fits_at(*screenshot, *template, ax, ay) && searched_before(ax, ay, ox as int, oy + 1)
                    ==> !#[trigger] matches_at(*screenshot, *template, ax, ay));
            if oy == last_y {
                break;
            }
            oy = oy + 1;
        }
        if ox == last_x {
            assert(forall|ax: int, ay: int|
                fits_at(*screenshot, *template, ax, ay) ==> !#[trigger] matches_at(
                    *screenshot,
                    *template,
                    ax,
                    ay,
                ));
            return None;
        }
        ox = ox + 1;
    }
}

pub open spec fn min_of(a: int, b: int) -> int {
    if a < b {
        a
    } else {
        b
    }
}

pub open spec fn distance(a: int, b: int) -> int {
    if a < b {
        b - a
    } else {
        a - b
    }
}

/// The rectangle between the two corners of a region, whichever way round
/// they are given.
pub fn capture_rect(region: Region) -> (r: CaptureRect)
    ensures
        r.left == min_of(region.x1 as int, region.x2 as int),
        r.top == min_of(region.y1 as int, region.y2 as int),
        r.width == distance(region.x1 as int, region.x2 as int),
        r.height == distance(region.y1 as int, region.y2 as int),
{
    let left = if region.x1 < region.x2 { region.x1 } else { region.x2 };
    let top = if region.y1 < region.y2 { region.y1 } else { region.y2 };
    let dx = region.x1 as i128 - region.x2 as i128;
    let dy = region.y1 as i128 - region.y2 as i128;
    let width = if dx < 0 { (-dx) as u64 } else { dx as u64 };
    let height = if dy < 0 { (-dy) as u64 } else { dy as u64 };
    CaptureRect { left, top, width, height }
}

/// Whether a screenshot can be searched: its buffer holds exactly its pixels
/// and all its positions are valid screen coordinates.
pub fn is_on_screen(screenshot: &RawScreenshot) -> (r: bool)
    ensures
        r == on_screen(*screenshot),
{
    let sized = screenshot.is_well_formed();
    sized && screenshot.x as i128 + screenshot.width as i128 <= i32::MAX as i128
        && screenshot.y as i128 + screenshot.height as i128 <= i32::MAX as i128
}

} // verus!
