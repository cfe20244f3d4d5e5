//! Fonts, text shaping, and the resource pool.
//!
//! A font is carried as a pair of scalable metrics; shaping is the
//! deterministic expansion of a string into positioned glyphs under those
//! metrics.  [`Resources`] owns the name-to-font map and memoizes shaped
//! text keyed by `(text, font name, size)`; a coherence invariant ties every
//! cache entry to what shaping its key yields under the current fonts, so
//! resolution results never depend on the cache contents.

use vstd::prelude::*;
use vstd::string::{StrSliceExecFns, StringExecFns};
use crate::geom::{Point2, Size2};
use crate::paint::Paint;

verus! {

/// Largest pixel size a text node may use.
pub const MAX_TEXT_SIZE: i64 = 0x10000;

/// Largest character count a text node may shape.
pub const MAX_TEXT_LEN: usize = 0x100000;

/// Largest metric value, in thousandths of the pixel size (ten em).
pub const MAX_METRIC: u32 = 10000;

/// Scalable metrics of a font: every length is in thousandths of the pixel
/// size.  The advance applies uniformly to every glyph.
#[derive(Debug, Clone, Copy, PartialEq, Eq, Structural, Hash)]
pub struct FontMetrics {
    /// Horizontal advance of one glyph, in thousandths of the pixel size.
    pub advance: u32,
    /// Vertical extent of one line, in thousandths of the pixel size.
    pub line_height: u32,
}

impl FontMetrics {
    pub open spec fn wf(self) -> bool {
        self.advance <= MAX_METRIC && self.line_height <= MAX_METRIC
    }
}

/// One positioned glyph of a shaped string.
#[derive(Debug, Clone, Copy, PartialEq, Eq, Structural, Hash)]
pub struct ShapedGlyph {
    /// The glyph identifier: the scalar value of the character it renders.
    pub id: u32,
    /// Offset of the glyph from the blob origin, in pixels.
    pub offset: Point2,
    /// Advance to the next glyph, in pixels.
    pub advance: Point2,
}

/// A shaped run of text: the glyphs in visual order.
#[derive(Debug, Clone, PartialEq)]
pub struct ShapedBlob {
    pub glyphs: Vec<ShapedGlyph>,
}

impl View for ShapedBlob {
    type V = Seq<ShapedGlyph>;

    open spec fn view(&self) -> Seq<ShapedGlyph> {
        self.glyphs@
    }
}

impl ShapedBlob {
    /// Deep copy; the result has the same glyphs.
    pub fn duplicate(&self) -> (r: ShapedBlob)
        ensures
            r@ == self@,
    {
        let mut glyphs: Vec<ShapedGlyph> = Vec::new();
        let mut i: usize = 0;
        while i < self.glyphs.len()
            invariant
                i <= self.glyphs@.len(),
                glyphs@ == self.glyphs@.subrange(0, i as int),
            decreases self.glyphs@.len() - i,
        {
            glyphs.push(self.glyphs[i]);
            assert(glyphs@ == self.glyphs@.subrange(0, i + 1 as int));
            i = i + 1;
        }
        assert(glyphs@ == self.glyphs@);
        ShapedBlob { glyphs }
    }
}

/// Pixel advance of one glyph at the given size.
pub open spec fn spec_advance(metrics: FontMetrics, size: int) -> int {
    (metrics.advance * size) / 1000
}

/// Pixel height of one line at the given size.
pub open spec fn spec_line_height(metrics: FontMetrics, size: int) -> int {
    (metrics.line_height * size) / 1000
}

/// The glyphs that shaping a string yields: one glyph per character, laid
/// out left to right with a uniform advance.
pub open spec fn spec_shaped_glyphs(text: Seq<char>, metrics: FontMetrics, size: int) -> Seq<
    ShapedGlyph,
> {
    Seq::new(
        text.len(),
        |i: int|
            ShapedGlyph {
                id: text[i] as u32,
                offset: Point2 { x: (i * spec_advance(metrics, size)) as i64, y: 0i64 },
                advance: Point2 { x: spec_advance(metrics, size) as i64, y: 0i64 },
            },
    )
}

/// The measured bounds of a shaped string: total advance by line height.
pub open spec fn spec_measure(text: Seq<char>, metrics: FontMetrics, size: int) -> Size2 {
    Size2 {
        width: (text.len() * spec_advance(metrics, size)) as i64,
        height: spec_line_height(metrics, size) as i64,
    }
}

/// Shapes a string under the given metrics and pixel size.
///
/// Shaping is deterministic: the result depends on the characters, the
/// metrics, and the size alone, which is what lets [`Resources`] memoize it.
pub fn shape_text(text: &str, metrics: FontMetrics, size: i64) -> (r: (ShapedBlob, Size2))
    requires
        metrics.wf(),
        0 <= size <= MAX_TEXT_SIZE,
        text@.len() <= MAX_TEXT_LEN,
    ensures
        r.0@ == spec_shaped_glyphs(text@, metrics, size as int),
        r.1 == spec_measure(text@, metrics, size as int),
{
    assert((metrics.advance as int) * (size as int) <= (MAX_METRIC as int) * (
    MAX_TEXT_SIZE as int)) by (nonlinear_arith)
        requires
            metrics.advance <= MAX_METRIC,
            0 <= size <= MAX_TEXT_SIZE,
    ;
    assert((metrics.line_height as int) * (size as int) <= (MAX_METRIC as int) * (
    MAX_TEXT_SIZE as int)) by (nonlinear_arith)
        requires
            metrics.line_height <= MAX_METRIC,
            0 <= size <= MAX_TEXT_SIZE,
    ;
    let adv64: u64 = ((metrics.advance as u64) * (size as u64)) / 1000;
    let adv: i64 = adv64 as i64;
    assert(adv as int == spec_advance(metrics, size as int));
    let lh64: u64 = ((metrics.line_height as u64) * (size as u64)) / 1000;
    let height: i64 = lh64 as i64;

    let n: usize = text.unicode_len();
    let mut glyphs: Vec<ShapedGlyph> = Vec::new();
    let mut i: usize = 0;
    while i < n
        invariant
            i <= n,
            n == text@.len(),
            n <= MAX_TEXT_LEN,
            0 <= adv as int <= (MAX_METRIC as int) * (MAX_TEXT_SIZE as int),
            adv as int == spec_advance(metrics, size as int),
            glyphs@ == spec_shaped_glyphs(text@, metrics, size as int).subrange(0, i as int),
        decreases n - i,
    {
        let c: char = text.get_char(i);
        assert(0 <= (i as int) * (adv as int) <= (MAX_TEXT_LEN as int) * ((MAX_METRIC as int) * (
        MAX_TEXT_SIZE as int))) by (nonlinear_arith)
            requires
                0 <= i as int <= MAX_TEXT_LEN as int,
                0 <= adv as int <= (MAX_METRIC as int) * (MAX_TEXT_SIZE as int),
        ;
        let off: i64 = (i as i64) * adv;
        glyphs.push(
            ShapedGlyph {
                id: c as u32,
                offset: Point2 { x: off, y: 0 },
                advance: Point2 { x: adv, y: 0 },
            },
        );
        assert(glyphs@ == spec_shaped_glyphs(text@, metrics, size as int).subrange(
            0,
            i + 1 as int,
        ));
        i = i + 1;
    }
    assert(glyphs@ == spec_shaped_glyphs(text@, metrics, size as int));
    assert(0 <= (n as int) * (adv as int) <= (MAX_TEXT_LEN as int) * ((MAX_METRIC as int) * (
    MAX_TEXT_SIZE as int))) by (nonlinear_arith)
        requires
            0 <= n as int <= MAX_TEXT_LEN as int,
            0 <= adv as int <= (MAX_METRIC as int) * (MAX_TEXT_SIZE as int),
    ;
    let width: i64 = (n as i64) * adv;
    (ShapedBlob { glyphs }, Size2 { width, height })
}

/// The memoization key of a shaped run.
#[derive(Debug, Clone, PartialEq)]
pub struct ShapeKey {
    pub text: String,
    pub font: String,
    pub size: i64,
}

/// A memoized shaped run: the blob and its measured bounds.
#[derive(Debug, Clone, PartialEq)]
pub struct ShapedText {
    pub blob: ShapedBlob,
    pub bounds: Size2,
}

impl ShapedText {
    /// Deep copy; the result has the same mathematical value.
    pub fn duplicate(&self) -> (r: ShapedText)
        ensures
            r.blob@ == self.blob@,
            r.bounds == self.bounds,
    {
        ShapedText { blob: self.blob.duplicate(), bounds: self.bounds }
    }
}

/// First-match lookup in the font association list.
pub open spec fn font_lookup(s: Seq<(String, FontMetrics)>, name: Seq<char>) -> Option<FontMetrics>
    decreases s.len(),
{
    if s.len() == 0 {
        None
    } else if s[0].0@ == name {
        Some(s[0].1)
    } else {
        font_lookup(s.drop_first(), name)
    }
}

/// Stores the resources the tree resolution consumes: the fonts by name, the
/// fallbacks for text nodes that leave size or fill unset, and the shaping
/// cache.  Earlier entries of `fonts` shadow later ones with the same name.
pub struct Resources {
    pub fonts: Vec<(String, FontMetrics)>,
    pub fallback_text_size: i64,
    pub fallback_text_fill: Paint,
    pub shaper_cache: Vec<(ShapeKey, ShapedText)>,
}

impl Resources {
    /// The font bound to a name, if any.
    pub open spec fn spec_font(self, name: Seq<char>) -> Option<FontMetrics> {
        font_lookup(self.fonts@, name)
    }

    pub open spec fn spec_has_font(self, name: Seq<char>) -> bool {
        self.spec_font(name) is Some
    }

    /// Every cached entry is exactly what shaping its key yields under the
    /// current fonts, so resolution results never depend on the cache.
    pub open spec fn cache_coherent(self) -> bool {
        forall|i: int|
            0 <= i < self.shaper_cache@.len() ==> {
                let key = (#[trigger] self.shaper_cache@[i]).0;
                let val = self.shaper_cache@[i].1;
                &&& self.spec_font(key.font@) matches Some(m) && {
                    &&& val.blob@ == spec_shaped_glyphs(key.text@, m, key.size as int)
                    &&& val.bounds == spec_measure(key.text@, m, key.size as int)
                }
            }
    }

    pub open spec fn wf(self) -> bool {
        &&& 0 <= self.fallback_text_size <= MAX_TEXT_SIZE
        &&& (forall|i: int| 0 <= i < self.fonts@.len() ==> (#[trigger] self.fonts@[i]).1.wf())
        &&& self.cache_coherent()
    }

    /// An empty resource pool with the given fallbacks.
    pub fn new(fallback_text_size: i64, fallback_text_fill: Paint) -> (r: Resources)
        requires
            0 <= fallback_text_size <= MAX_TEXT_SIZE,
        ensures
            r.wf(),
            r.fonts@.len() == 0,
            r.fallback_text_size == fallback_text_size,
            r.fallback_text_fill == fallback_text_fill,
            forall|n: Seq<char>| #[trigger] r.spec_font(n) is None,
    {
        let r = Resources {
            fonts: Vec::new(),
            fallback_text_size,
            fallback_text_fill,
            shaper_cache: Vec::new(),
        };
        r
    }

    /// Binds a font to a name, shadowing any previous binding.  Shaped runs
    /// cached under other names stay coherent because lookups find the
    /// newest binding first; runs cached under this name are evicted.
    pub fn add_font(&mut self, name: String, metrics: FontMetrics)
        requires
            old(self).wf(),
            metrics.wf(),
        ensures
            final(self).wf(),
            forall|n: Seq<char>|
                #[trigger] final(self).spec_font(n) == if n == name@ {
                    Some(metrics)
                } else {
                    old(self).spec_font(n)
                },
            final(self).fallback_text_size == old(self).fallback_text_size,
            final(self).fallback_text_fill == old(self).fallback_text_fill,
    {
        // Evict shaped runs derived from the shadowed binding.
        let mut kept: Vec<(ShapeKey, ShapedText)> = Vec::new();
        let mut i: usize = 0;
        while i < self.shaper_cache.len()
            invariant
                i <= self.shaper_cache@.len(),
                *self == *old(self),
                old(self).wf(),
                forall|j: int|
                    0 <= j < kept@.len() ==> {
                        let key = (#[trigger] kept@[j]).0;
                        let val = kept@[j].1;
                        &&& key.font@ != name@
                        &&& old(self).spec_font(key.font@) matches Some(fm) && {
                            &&& val.blob@ == spec_shaped_glyphs(key.text@, fm, key.size as int)
                            &&& val.bounds == spec_measure(key.text@, fm, key.size as int)
                        }
                    },
            decreases self.shaper_cache@.len() - i,
        {
            let keep_it = !(self.shaper_cache[i].0.font == name);
            if keep_it {
                let entry = &self.shaper_cache[i];
                let e = (
                    ShapeKey {
                        text: entry.0.text.clone(),
                        font: entry.0.font.clone(),
                        size: entry.0.size,
                    },
                    ShapedText { blob: entry.1.blob.duplicate(), bounds: entry.1.bounds },
                );
                proof {
                    let orig = self.shaper_cache@[i as int];
                    assert(self.spec_font(orig.0.font@) matches Some(fm) && {
                        &&& orig.1.blob@ == spec_shaped_glyphs(orig.0.text@, fm, orig.0.size as int)
                        &&& orig.1.bounds == spec_measure(orig.0.text@, fm, orig.0.size as int)
                    });
                }
                kept.push(e);
            }
            i = i + 1;
        }
        self.shaper_cache = kept;
        let ghost kept_view = self.shaper_cache@;
        self.fonts.insert(0, (name, metrics));
        proof {
            assert(self.fonts@.drop_first() =~= old(self).fonts@);
            assert(self.fonts@[0].0@ == name@);
            assert forall|n: Seq<char>| #[trigger]
                self.spec_font(n) == if n == name@ {
                    Some(metrics)
                } else {
                    old(self).spec_font(n)
                } by {}
            assert forall|j: int| 0 <= j < self.shaper_cache@.len() implies {
                let key = (#[trigger] self.shaper_cache@[j]).0;
                let val = self.shaper_cache@[j].1;
                &&& self.spec_font(key.font@) matches Some(fm) && {
                    &&& val.blob@ == spec_shaped_glyphs(key.text@, fm, key.size as int)
                    &&& val.bounds == spec_measure(key.text@, fm, key.size as int)
                }
            } by {
                assert(self.shaper_cache@[j] == kept_view[j]);
                assert(self.shaper_cache@[j].0.font@ != name@);
            }
        }
    }

    /// The font bound to a name, if any.
    pub fn font(&self, name: &str) -> (r: Option<&FontMetrics>)
        ensures
            match r {
                Some(m) => self.spec_font(name@) == Some(*m),
                None => self.spec_font(name@) is None,
            },
    {
        let name_s: String = String::from_str(name);
        let n = self.fonts.len();
        let mut i: usize = 0;
        assert(self.fonts@.skip(0) =~= self.fonts@);
        while i < n
            invariant
                i <= n,
                n == self.fonts@.len(),
                name_s@ == name@,
                font_lookup(self.fonts@.skip(i as int), name@) == font_lookup(
                    self.fonts@,
                    name@,
                ),
            decreases n - i,
        {
            let ghost pre = self.fonts@.skip(i as int);
            assert(pre[0] == self.fonts@[i as int]);
            if self.fonts[i].0 == name_s {
                assert(font_lookup(pre, name@) == Some(self.fonts@[i as int].1));
                return Some(&self.fonts[i].1);
            }
            proof {
                assert(pre.drop_first() =~= self.fonts@.skip(i as int + 1));
            }
            i = i + 1;
        }
        assert(self.fonts@.skip(n as int) =~= Seq::<(String, FontMetrics)>::empty());
        None
    }

    /// Whether a font is bound to this name.
    pub fn has_font(&self, name: &str) -> (r: bool)
        ensures
            r == self.spec_has_font(name@),
    {
        match self.font(name) {
            Some(_) => true,
            None => false,
        }
    }

    /// Returns the shaped run for `(text, font_name, size)`, reusing the
    /// cached artifact when one exists and shaping (then memoizing) when
    /// none does.  Either way the result is exactly what [`shape_text`]
    /// yields under the current binding of `font_name`.
    pub fn get_or_shape(&mut self, text: &String, font_name: &String, size: i64) -> (r: ShapedText)
        requires
            old(self).wf(),
            old(self).spec_font(font_name@) is Some,
            0 <= size <= MAX_TEXT_SIZE,
            text@.len() <= MAX_TEXT_LEN,
        ensures
            final(self).wf(),
            final(self).fonts == old(self).fonts,
            final(self).fallback_text_size == old(self).fallback_text_size,
            final(self).fallback_text_fill == old(self).fallback_text_fill,
            ({
                let m = old(self).spec_font(font_name@)->Some_0;
                &&& r.blob@ == spec_shaped_glyphs(text@, m, size as int)
                &&& r.bounds == spec_measure(text@, m, size as int)
            }),
    {
        let ghost m = self.spec_font(font_name@)->Some_0;
        let n = self.shaper_cache.len();
        let mut i: usize = 0;
        while i < n
            invariant
                i <= n,
                n == self.shaper_cache@.len(),
                *self == *old(self),
                old(self).wf(),
                old(self).spec_font(font_name@) is Some,
                m == old(self).spec_font(font_name@)->Some_0,
            decreases n - i,
        {
            let entry = &self.shaper_cache[i];
            if entry.0.text == *text && entry.0.font == *font_name && entry.0.size == size {
                proof {
                    let e = self.shaper_cache@[i as int];
                    assert(self.spec_font(e.0.font@) matches Some(fm) && {
                        &&& e.1.blob@ == spec_shaped_glyphs(e.0.text@, fm, e.0.size as int)
                        &&& e.1.bounds == spec_measure(e.0.text@, fm, e.0.size as int)
                    });
                    assert(e.0.text@ == text@ && e.0.font@ == font_name@ && e.0.size == size);
                }
                return entry.1.duplicate();
            }
            i = i + 1;
        }
        let metrics: FontMetrics = match self.font(font_name.as_str()) {
            Some(mref) => *mref,
            None => {
                // unreachable: the font is known to be bound
                proof {
                    assert(false);
                }
                FontMetrics { advance: 0, line_height: 0 }
            },
        };
        assert(metrics.wf()) by {
            lemma_font_lookup_found(self.fonts@, font_name@);
        }
        let (blob, bounds) = shape_text(text.as_str(), metrics, size);
        let result = ShapedText { blob, bounds };
        let entry = (
            ShapeKey { text: text.clone(), font: font_name.clone(), size },
            result.duplicate(),
        );
        let ghost pre_cache = self.shaper_cache@;
        self.shaper_cache.push(entry);
        proof {
            assert forall|j: int| 0 <= j < self.shaper_cache@.len() implies {
                let key = (#[trigger] self.shaper_cache@[j]).0;
                let val = self.shaper_cache@[j].1;
                &&& self.spec_font(key.font@) matches Some(fm) && {
                    &&& val.blob@ == spec_shaped_glyphs(key.text@, fm, key.size as int)
                    &&& val.bounds == spec_measure(key.text@, fm, key.size as int)
                }
            } by {
                if j < pre_cache.len() {
                    assert(self.shaper_cache@[j] == pre_cache[j]);
                } else {
                    assert(self.shaper_cache@[j] == entry);
                }
            }
        }
        result
    }
}

/// A font found by lookup appears in the list, so it satisfies the list's
/// well-formedness bound.
proof fn lemma_font_lookup_found(s: Seq<(String, FontMetrics)>, name: Seq<char>)
    requires
        font_lookup(s, name) is Some,
        forall|i: int| 0 <= i < s.len() ==> (#[trigger] s[i]).1.wf(),
    ensures
        font_lookup(s, name)->Some_0.wf(),
    decreases s.len(),
{
    if s.len() == 0 {
    } else if s[0].0@ == name {
    } else {
        lemma_font_lookup_found(s.drop_first(), name);
    }
}

} // verus!
