use heart_tui::color::{rainbow_color, PaletteColor};

#[test]
fn first_and_last_palette_entries() {
    assert_eq!(rainbow_color(0), PaletteColor::Red);
    assert_eq!(rainbow_color(4), PaletteColor::LightMagenta);
    assert_eq!(rainbow_color(5), PaletteColor::Red);
}

#[test]
fn palette_order_over_one_cycle() {
    assert_eq!(rainbow_color(0), PaletteColor::Red);
    assert_eq!(rainbow_color(1), PaletteColor::Yellow);
    assert_eq!(rainbow_color(2), PaletteColor::Magenta);
    assert_eq!(rainbow_color(3), PaletteColor::LightRed);
    assert_eq!(rainbow_color(4), PaletteColor::LightMagenta);
}

#[test]
fn cycles_every_five_ticks() {
    for t in [0u64, 1, 2, 3, 4, 17, 123, 1_000_000] {
        assert_eq!(rainbow_color(t), rainbow_color(t + 5));
    }
}
