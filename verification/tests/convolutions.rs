use photo_editor::convolutions::apply_convolution;
use photo_editor::convolutions::edge_detection;
use photo_editor::convolutions::emboss;
use photo_editor::convolutions::kernel_for;
use photo_editor::convolutions::NamedKernel;
use photo_editor::convolutions::sharpen;
use photo_editor::photo::Photo;

fn uniform(width: u32, height: u32, pixel: [u8; 4]) -> Photo {
    let mut pixels: Vec<u8> = Vec::new();
    for _ in 0..(width * height) {
        pixels.extend_from_slice(&pixel);
    }
    Photo { pixels, width, height }
}

fn numbered(width: u32, height: u32) -> Photo {
    let pixels: Vec<u8> = (0..width * height * 4).map(|v| (v * 7 % 251) as u8).collect();
    Photo { pixels, width, height }
}

fn at(width: u32, x: u32, y: u32, c: u32) -> usize {
    ((y * width + x) * 4 + c) as usize
}

#[test]
fn sharpen_on_uniform_gray_changes_nothing() {
    let mut p = uniform(3, 3, [128, 128, 128, 255]);
    apply_convolution([0, -1, 0, -1, 5, -1, 0, -1, 0], &mut p);
    assert_eq!(p, uniform(3, 3, [128, 128, 128, 255]));
    let mut q = uniform(3, 3, [128, 128, 128, 255]);
    sharpen(&mut q);
    assert_eq!(q, uniform(3, 3, [128, 128, 128, 255]));
}

#[test]
fn named_kernels_on_a_single_bright_centre() {
    let mut base = uniform(3, 3, [0, 0, 0, 9]);
    base.pixels[at(3, 1, 1, 0)] = 20;
    base.pixels[at(3, 1, 1, 1)] = 40;
    base.pixels[at(3, 1, 1, 2)] = 100;

    let mut e = base.clone();
    edge_detection(&mut e);
    let mut s = base.clone();
    sharpen(&mut s);
    let mut m = base.clone();
    emboss(&mut m);

    let centre = at(3, 1, 1, 0);
    assert_eq!(&e.pixels[centre..centre + 4], &[160, 255, 255, 9]);
    assert_eq!(&s.pixels[centre..centre + 4], &[100, 200, 255, 9]);
    assert_eq!(&m.pixels[centre..centre + 4], &[20, 40, 100, 9]);
    for k in 0..36 {
        if k < centre || k >= centre + 4 {
            assert_eq!(e.pixels[k], base.pixels[k]);
            assert_eq!(s.pixels[k], base.pixels[k]);
            assert_eq!(m.pixels[k], base.pixels[k]);
        }
    }
}

#[test]
fn negative_sums_clamp_to_zero() {
    let mut p = uniform(3, 3, [255, 200, 1, 77]);
    p.pixels[at(3, 1, 1, 0)] = 0;
    p.pixels[at(3, 1, 1, 1)] = 100;
    p.pixels[at(3, 1, 1, 2)] = 2;
    edge_detection(&mut p);
    let centre = at(3, 1, 1, 0);
    assert_eq!(&p.pixels[centre..centre + 4], &[0, 0, 8, 77]);
}

#[test]
fn emboss_weights_each_neighbour() {
    let mut p = Photo {
        pixels: vec![
            1, 0, 0, 0, 2, 0, 0, 0, 3, 0, 0, 0, 4, 0, 0, 0, 5, 0, 0, 0, 6, 0, 0, 0, 7, 0, 0, 0,
            8, 0, 0, 0, 9, 0, 0, 0,
        ],
        width: 3,
        height: 3,
    };
    emboss(&mut p);
    // -2*1 - 1*2 + 0*3 - 1*4 + 1*5 + 1*6 + 0*7 + 1*8 + 2*9 = 29
    assert_eq!(p.pixels[at(3, 1, 1, 0)], 29);
    assert_eq!(p.pixels[at(3, 1, 1, 1)], 0);
}

#[test]
fn sums_read_the_input_not_the_output() {
    let mut p = numbered(5, 4);
    let source = p.pixels.clone();
    apply_convolution([0, 0, 0, 1, 0, 0, 0, 0, 0], &mut p);
    for y in 0..4 {
        for x in 0..5 {
            for c in 0..4 {
                let interior = x >= 1 && x + 1 < 5 && y >= 1 && y + 1 < 4;
                let want = if interior && c < 3 {
                    source[at(5, x - 1, y, c)]
                } else {
                    source[at(5, x, y, c)]
                };
                assert_eq!(p.pixels[at(5, x, y, c)], want);
            }
        }
    }
    let mut q = numbered(5, 4);
    apply_convolution([0, 1, 0, 0, 0, 0, 0, 0, 0], &mut q);
    assert_eq!(q.pixels[at(5, 2, 2, 1)], source[at(5, 2, 1, 1)]);
    assert_eq!(q.pixels[at(5, 2, 1, 1)], source[at(5, 2, 0, 1)]);
}

#[test]
fn border_and_alpha_are_copied() {
    let mut p = numbered(6, 5);
    let source = p.pixels.clone();
    edge_detection(&mut p);
    assert_eq!((p.width, p.height), (6, 5));
    assert_eq!(p.pixels.len(), source.len());
    for y in 0..5 {
        for x in 0..6 {
            let border = x == 0 || x == 5 || y == 0 || y == 4;
            for c in 0..4 {
                if border || c == 3 {
                    assert_eq!(p.pixels[at(6, x, y, c)], source[at(6, x, y, c)]);
                }
            }
        }
    }
}

#[test]
fn images_without_interior_are_copied() {
    let shapes: [(u32, u32); 6] = [(1, 1), (2, 2), (1, 7), (7, 1), (2, 9), (9, 2)];
    for (w, h) in shapes {
        let mut p = numbered(w, h);
        let source = p.pixels.clone();
        sharpen(&mut p);
        assert_eq!(p.pixels, source);
    }
    let mut empty = Photo { pixels: vec![], width: 0, height: 4 };
    emboss(&mut empty);
    assert_eq!(empty, Photo { pixels: vec![], width: 0, height: 4 });
}

#[test]
fn extreme_weights_do_not_wrap() {
    let mut p = uniform(3, 3, [255, 255, 255, 255]);
    apply_convolution([i32::MAX; 9], &mut p);
    assert_eq!(p, uniform(3, 3, [255, 255, 255, 255]));
    let mut q = uniform(3, 3, [255, 255, 255, 255]);
    apply_convolution([i32::MIN; 9], &mut q);
    assert_eq!(&q.pixels[16..20], &[0, 0, 0, 255]);
}

#[test]
fn named_kernels_have_their_weights() {
    assert_eq!(kernel_for(NamedKernel::EdgeDetection), [-1, -1, -1, -1, 8, -1, -1, -1, -1]);
    assert_eq!(kernel_for(NamedKernel::Sharpen), [0, -1, 0, -1, 5, -1, 0, -1, 0]);
    assert_eq!(kernel_for(NamedKernel::Emboss), [-2, -1, 0, -1, 1, 1, 0, 1, 2]);
}

#[test]
fn named_functions_apply_their_kernels() {
    let mut a = numbered(5, 5);
    let mut b = numbered(5, 5);
    edge_detection(&mut a);
    apply_convolution(kernel_for(NamedKernel::EdgeDetection), &mut b);
    assert_eq!(a, b);
    assert_ne!(a, numbered(5, 5));

    let mut a = numbered(5, 5);
    let mut b = numbered(5, 5);
    sharpen(&mut a);
    apply_convolution(kernel_for(NamedKernel::Sharpen), &mut b);
    assert_eq!(a, b);

    let mut a = numbered(5, 5);
    let mut b = numbered(5, 5);
    emboss(&mut a);
    apply_convolution(kernel_for(NamedKernel::Emboss), &mut b);
    assert_eq!(a, b);
}
