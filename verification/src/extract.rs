//! The extraction stage: one draw primitive for each glyph of a visible text.

use vstd::prelude::*;

verus! {

/// One glyph, ready for the renderer.
///
/// The glyph's placement and its rectangle in the atlas are the host's to
/// compute; `glyph` says which glyph of the cached layout they belong to.
#[derive(Debug, PartialEq, Eq)]
pub struct DrawPrimitive<C> {
    /// Paint order among overlapping primitives: higher is drawn above.
    pub stack_index: u32,
    /// The camera the primitive is drawn for.
    pub camera: u64,
    /// Position of the glyph in the cached layout.
    pub glyph: usize,
    /// Colour of the section that the glyph belongs to.
    pub color: C,
    /// Mirrored left to right.
    pub flip_x: bool,
    /// Mirrored top to bottom.
    pub flip_y: bool,
}

/// What the extraction stage reads of one text entity.
pub struct TextSprite<C> {
    /// The host's visibility pass found the entity visible.
    pub visible: bool,
    /// The camera that the entity asks for, if it names one.
    pub target_camera: Option<u64>,
    /// The entity's depth coordinate, cut down to its integer part.
    pub depth: u32,
    /// The colour of each section of the text, in order.
    pub section_colors: Vec<C>,
    /// For each glyph of the cached layout, the section it came from.
    pub glyph_sections: Vec<usize>,
}

/// The mathematical content of a [`TextSprite`]: the same fields, with
/// sequences in place of vectors.
pub struct TextSpriteView<C> {
    /// See [`TextSprite::visible`].
    pub visible: bool,
    /// See [`TextSprite::target_camera`].
    pub target_camera: Option<u64>,
    /// See [`TextSprite::depth`].
    pub depth: u32,
    /// See [`TextSprite::section_colors`].
    pub section_colors: Seq<C>,
    /// See [`TextSprite::glyph_sections`].
    pub glyph_sections: Seq<usize>,
}

impl<C> View for TextSprite<C> {
    type V = TextSpriteView<C>;

    open spec fn view(&self) -> TextSpriteView<C> {
        TextSpriteView {
            visible: self.visible,
            target_camera: self.target_camera,
            depth: self.depth,
            section_colors: self.section_colors@,
            glyph_sections: self.glyph_sections@,
        }
    }
}

/// The cached layout is older than the text: one of its glyphs names a
/// section that the text no longer has.
#[derive(Clone, Copy, Debug, PartialEq, Eq)]
pub struct StaleLayout {
    /// The first such glyph.
    pub glyph: usize,
    /// The section it names.
    pub section: usize,
}

impl<C> TextSpriteView<C> {
    /// Glyph `k` belongs to a section that the text has.
    pub open spec fn glyph_has_section(self, k: int) -> bool {
        self.glyph_sections[k] < self.section_colors.len()
    }

    /// Every glyph belongs to a section that the text has.
    pub open spec fn wf(self) -> bool {
        forall|k: int| 0 <= k < self.glyph_sections.len() ==> #[trigger] self.glyph_has_section(k)
    }

    /// The camera that the text is drawn for, if it is drawn at all: a
    /// hidden text is not drawn, nor is one for which no camera is found.
    pub open spec fn drawn_for(self, default_camera: Option<u64>) -> Option<u64> {
        if self.visible {
            resolved_camera(self.target_camera, default_camera)
        } else {
            None
        }
    }
}

/// The camera a text goes to: the one it names, else the default UI camera
/// of the scene, else none.
pub open spec fn resolved_camera(target_camera: Option<u64>, default_camera: Option<u64>) -> Option<
    u64,
> {
    match target_camera {
        Some(camera) => Some(camera),
        None => default_camera,
    }
}

/// The primitive of glyph `k` of a text that is drawn for `camera`: stacked
/// at the depth of the text, in the colour of the glyph's section, not
/// flipped.
pub open spec fn primitive_of<C>(sprite: TextSpriteView<C>, camera: u64, k: int) -> DrawPrimitive<
    C,
> {
    DrawPrimitive {
        stack_index: sprite.depth,
        camera,
        glyph: k as usize,
        color: sprite.section_colors[sprite.glyph_sections[k] as int],
        flip_x: false,
        flip_y: false,
    }
}

/// The primitives of one text: none if it is not drawn, else one for each
/// glyph, in the order of the glyphs.
pub open spec fn extracted<C>(sprite: TextSpriteView<C>, default_camera: Option<u64>) -> Seq<
    DrawPrimitive<C>,
> {
    match sprite.drawn_for(default_camera) {
        None => Seq::empty(),
        Some(camera) => Seq::new(
            sprite.glyph_sections.len(),
            |k: int| primitive_of(sprite, camera, k),
        ),
    }
}

/// Picks the camera a text goes to.
pub fn resolve_camera(target_camera: Option<u64>, default_camera: Option<u64>) -> (camera: Option<
    u64,
>)
    ensures
        camera == resolved_camera(target_camera, default_camera),
{
    match target_camera {
        Some(camera) => Some(camera),
        None => default_camera,
    }
}

/// Turns one text entity into draw primitives.
///
/// A hidden text gives none, and so does a text for which no camera is
/// found. Any other text gives one primitive for each glyph of its cached
/// layout, in the order of the glyphs: stacked at the entity's depth, drawn
/// for the resolved camera, in the colour of the glyph's section, and not
/// flipped.
///
/// A text that is drawn must have a section for each of its glyphs. If it
/// has not, the first glyph without one is returned as the error.
pub fn extract_text_sprite<C: Copy>(sprite: &TextSprite<C>, default_camera: Option<u64>) -> (result:
    Result<Vec<DrawPrimitive<C>>, StaleLayout>)
    ensures
        result is Ok <==> sprite@.drawn_for(default_camera) is None || sprite@.wf(),
        result matches Ok(primitives) ==> primitives@ == extracted(sprite@, default_camera),
        result matches Err(stale) ==> {
            &&& stale.glyph < sprite@.glyph_sections.len()
            &&& stale.section == sprite@.glyph_sections[stale.glyph as int]
            &&& !sprite@.glyph_has_section(stale.glyph as int)
            &&& forall|j: int| 0 <= j < stale.glyph ==> #[trigger] sprite@.glyph_has_section(j)
        },
{
    let mut primitives: Vec<DrawPrimitive<C>> = Vec::new();
    if !sprite.visible {
        return Ok(primitives);
    }
    let camera = match resolve_camera(sprite.target_camera, default_camera) {
        Some(camera) => camera,
        None => {
            return Ok(primitives);
        },
    };
    let mut k: usize = 0;
    while k < sprite.glyph_sections.len()
        invariant
            k <= sprite.glyph_sections.len(),
            sprite@.drawn_for(default_camera) == Some(camera),
            primitives@.len() == k,
            forall|j: int| 0 <= j < k ==> #[trigger] sprite@.glyph_has_section(j),
            forall|j: int| 0 <= j < k ==> primitives@[j] == primitive_of(sprite@, camera, j),
        decreases sprite.glyph_sections.len() - k,
    {
        let section = sprite.glyph_sections[k];
        if section >= sprite.section_colors.len() {
            assert(!sprite@.glyph_has_section(k as int));
            return Err(StaleLayout { glyph: k, section });
        }
        primitives.push(
            DrawPrimitive {
                stack_index: sprite.depth,
                camera,
                glyph: k,
                color: sprite.section_colors[section],
                flip_x: false,
                flip_y: false,
            },
        );
        assert(sprite@.glyph_has_section(k as int));
        k += 1;
    }
    Ok(primitives)
}

/// A hidden text gives no primitive, whatever its layout holds and whatever
/// cameras there are.
pub proof fn hidden_text_draws_nothing<C>(sprite: TextSpriteView<C>, default_camera: Option<u64>)
    requires
        !sprite.visible,
    ensures
        extracted(sprite, default_camera).len() == 0,
{
}

/// A text that is drawn gives one primitive for each glyph, and the
/// primitive at place `k` belongs to glyph `k`.
pub proof fn one_primitive_for_each_glyph<C>(
    sprite: TextSpriteView<C>,
    default_camera: Option<u64>,
    k: int,
)
    requires
        sprite.drawn_for(default_camera) is Some,
        0 <= k < sprite.glyph_sections.len() <= usize::MAX,
    ensures
        extracted(sprite, default_camera).len() == sprite.glyph_sections.len(),
        extracted(sprite, default_camera)[k].glyph == k,
{
}

/// Of two texts, every primitive of the one with the greater depth is
/// stacked strictly above every primitive of the other. Neither the order in
/// which the two are extracted nor their cameras matter.
pub proof fn deeper_text_stacks_above<C>(
    upper: TextSpriteView<C>,
    upper_default: Option<u64>,
    lower: TextSpriteView<C>,
    lower_default: Option<u64>,
    i: int,
    j: int,
)
    requires
        upper.depth > lower.depth,
        0 <= i < extracted(upper, upper_default).len(),
        0 <= j < extracted(lower, lower_default).len(),
    ensures
        extracted(upper, upper_default)[i].stack_index > extracted(lower, lower_default)[j].stack_index,
{
}

/// A text that names a camera is drawn for that camera, whatever the default
/// camera is and whether there is one: the default has no part in what is
/// extracted.
pub proof fn target_camera_overrides_default<C>(
    sprite: TextSpriteView<C>,
    camera: u64,
    default_camera: Option<u64>,
    other_default: Option<u64>,
    k: int,
)
    requires
        sprite.target_camera == Some(camera),
        0 <= k < extracted(sprite, default_camera).len(),
    ensures
        extracted(sprite, default_camera)[k].camera == camera,
        extracted(sprite, default_camera) == extracted(sprite, other_default),
{
}

} // verus!
