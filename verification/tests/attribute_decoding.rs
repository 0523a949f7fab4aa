use font_index::{Attributes, Style};
use swash::{ObliqueAngle, Stretch, Weight};

fn packed(stretch: Stretch, weight: Weight, style: swash::Style) -> Attributes {
    Attributes(swash::Attributes::new(stretch, weight, style).0)
}

#[test]
fn regular_attributes_decode() {
    let attributes = packed(Stretch::NORMAL, Weight::NORMAL, swash::Style::Normal);
    assert_eq!(attributes.stretch(), 100);
    assert_eq!(attributes.weight(), 400);
    assert_eq!(attributes.style(), Style::Normal);
}

#[test]
fn bold_italic_condensed_decodes() {
    let attributes = packed(Stretch::CONDENSED, Weight::BOLD, swash::Style::Italic);
    assert_eq!(attributes.stretch(), 50);
    assert_eq!(attributes.weight(), 700);
    assert_eq!(attributes.style(), Style::Italic);
}

#[test]
fn oblique_decodes_whatever_its_angle() {
    let upright = packed(
        Stretch::ULTRA_EXPANDED,
        Weight::THIN,
        swash::Style::Oblique(ObliqueAngle::from_degrees(-90.0)),
    );
    assert_eq!(upright.stretch(), 300);
    assert_eq!(upright.weight(), 100);
    assert_eq!(upright.style(), Style::Oblique);
    let slanted = packed(
        Stretch::ULTRA_CONDENSED,
        Weight::BLACK,
        swash::Style::Oblique(ObliqueAngle::from_degrees(14.0)),
    );
    assert_eq!(slanted.stretch(), 0);
    assert_eq!(slanted.weight(), 900);
    assert_eq!(slanted.style(), Style::Oblique);
}

#[test]
fn decoding_goes_by_the_documented_bits() {
    // stretch 100 from bit 19, weight 400 from bit 9, normal style is 2.
    assert_eq!(Attributes((100 << 19) | (400 << 9) | 2).stretch(), 100);
    assert_eq!(Attributes((100 << 19) | (400 << 9) | 2).weight(), 400);
    assert_eq!(Attributes((100 << 19) | (400 << 9) | 2).style(), Style::Normal);
    assert_eq!(Attributes(6).style(), Style::Italic);
    assert_eq!(Attributes(1).style(), Style::Oblique);
    assert_eq!(Attributes(7).style(), Style::Oblique);
    assert_eq!(Attributes(0).style(), Style::Normal);
    assert_eq!(Attributes(4).style(), Style::Normal);
    assert_eq!(Attributes(0).stretch(), 0);
    assert_eq!(Attributes(0).weight(), 0);
    // The four top bits flag variations and belong to no attribute.
    assert_eq!(Attributes(0xf000_0000).stretch(), 0);
    assert_eq!(Attributes(0xffff_ffff).stretch(), 0x1ff);
    assert_eq!(Attributes(0xffff_ffff).weight(), 0x3ff);
    assert_eq!(Attributes(0xffff_ffff).style(), Style::Oblique);
}

#[test]
fn decoding_agrees_with_swash_on_many_values() {
    let mut bits: u32 = 0x9e37_79b9;
    for _ in 0..2000 {
        bits = bits.wrapping_mul(1_664_525).wrapping_add(1_013_904_223);
        let ours = Attributes(bits);
        let theirs = swash::Attributes(bits);
        assert_eq!(ours.stretch(), theirs.stretch().raw());
        assert_eq!(ours.weight(), theirs.weight().0);
        let style = match theirs.style() {
            swash::Style::Normal => Style::Normal,
            swash::Style::Italic => Style::Italic,
            swash::Style::Oblique(_) => Style::Oblique,
        };
        assert_eq!(ours.style(), style);
    }
}
