use fractal::buffer::PixelBuffer;
use fractal::gate::RenderGate;
use fractal::pixel::Pixel;
use fractal::render::{grid_position, recompute, HEIGHT, WIDTH};

#[test]
fn grid_position_is_row_major() {
    assert_eq!(grid_position(0), (0, 0));
    assert_eq!(grid_position(1919), (1919, 0));
    assert_eq!(grid_position(1920), (0, 1));
    assert_eq!(grid_position(1921 + 1920 * 5), (1, 6));
    assert_eq!(grid_position(WIDTH * HEIGHT - 1), (1919, 1079));
}

#[test]
fn gate_starts_dirty_and_follows_marks() {
    let mut g = RenderGate::new();
    assert!(g.needs_recompute());
    g.mark_clean();
    assert_eq!(g, RenderGate::Clean);
    assert!(!g.needs_recompute());
    g.mark_dirty();
    assert_eq!(g, RenderGate::Dirty);
}

#[test]
fn recompute_shades_every_cell_and_cleans_the_gate() {
    let mut b = PixelBuffer::new(2, 2);
    let mut g = RenderGate::new();
    let escapes = vec![None, Some(0), Some(25), Some(49)];
    recompute(&mut b, &mut g, &escapes, 50);
    assert_eq!(g, RenderGate::Clean);
    assert_eq!(
        b.get_raw(),
        &vec![0, 0, 255, 255, 0, 0, 255, 255, 0, 0, 255, 128, 0, 0, 255, 250]
    );
}

#[test]
fn recompute_with_clean_gate_leaves_the_frame() {
    let mut b = PixelBuffer::new(2, 1);
    let mut g = RenderGate::new();
    recompute(&mut b, &mut g, &vec![Some(1), Some(2)], 10);
    let first = b.get_raw().clone();
    recompute(&mut b, &mut g, &vec![None, None], 10);
    assert_eq!(b.get_raw(), &first);
    assert_eq!(g, RenderGate::Clean);
    g.mark_dirty();
    recompute(&mut b, &mut g, &vec![None, None], 10);
    assert_eq!(b.get_raw(), &vec![0, 0, 255, 255, 0, 0, 255, 255]);
}

#[test]
fn recompute_is_deterministic_whatever_the_old_contents() {
    let escapes: Vec<Option<u32>> = (0..WIDTH as u32 * 2)
        .map(|i| if i % 7 == 0 { None } else { Some(i % 100) })
        .collect();
    let mut a = PixelBuffer::new(WIDTH, 2);
    let mut b = PixelBuffer::new(WIDTH, 2);
    b.write_pixel_at(17, Pixel { r: 1, g: 2, b: 3, a: 4 });
    let mut ga = RenderGate::new();
    let mut gb = RenderGate::new();
    recompute(&mut a, &mut ga, &escapes, 100);
    recompute(&mut b, &mut gb, &escapes, 100);
    assert_eq!(a.get_raw(), b.get_raw());
    let pixels = a.take();
    for (i, e) in escapes.iter().enumerate() {
        assert_eq!(pixels[i], Pixel::from_escape(*e, 100));
    }
}

#[test]
fn recompute_fills_a_full_frame() {
    let escapes = vec![Some(10u32); WIDTH * HEIGHT];
    let mut b = PixelBuffer::new(WIDTH, HEIGHT);
    let mut g = RenderGate::new();
    recompute(&mut b, &mut g, &escapes, 20);
    let raw = b.get_raw();
    assert_eq!(raw.len(), WIDTH * HEIGHT * 4);
    // 10/20 * 255 = 127.5
    assert!(raw.chunks(4).all(|c| c == [0, 0, 255, 128]));
}
