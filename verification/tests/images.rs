use vu::img::{
    format_of, read_frames, read_single, reads_frames, resize, scale_image_fast, Delay, Format,
    Image,
};
use vu::zoom::Zoom;

fn delay(ms: u32) -> Delay {
    Delay { numer_ms: ms, denom_ms: 1 }
}

fn three_frames() -> Image {
    Image::Sequence {
        frames: vec![vec![1; 4], vec![2; 4], vec![3; 4]],
        delays: vec![delay(10), delay(20), delay(30)],
        index: 0,
        size: (1, 1),
    }
}

#[test]
fn single_image_is_valid_when_its_buffer_fills_the_canvas() {
    assert!(Image::Single { data: vec![0; 24], size: (3, 2) }.is_valid());
    assert!(Image::Single { data: vec![], size: (0, 0) }.is_valid());
    assert!(Image::Single { data: vec![], size: (0, 9) }.is_valid());
    assert!(!Image::Single { data: vec![0; 23], size: (3, 2) }.is_valid());
    assert!(!Image::Single { data: vec![0; 25], size: (3, 2) }.is_valid());
    assert!(!Image::Single { data: vec![], size: (u32::MAX, u32::MAX) }.is_valid());
}

#[test]
fn sequence_is_valid_when_frames_and_delays_match() {
    assert!(three_frames().is_valid());
    let no_frames = Image::Sequence { frames: vec![], delays: vec![], index: 0, size: (1, 1) };
    assert!(!no_frames.is_valid());
    let a_delay_short = Image::Sequence {
        frames: vec![vec![1; 4], vec![2; 4]],
        delays: vec![delay(10)],
        index: 0,
        size: (1, 1),
    };
    assert!(!a_delay_short.is_valid());
    let a_frame_short = Image::Sequence {
        frames: vec![vec![1; 4], vec![2; 3]],
        delays: vec![delay(10), delay(10)],
        index: 0,
        size: (1, 1),
    };
    assert!(!a_frame_short.is_valid());
    let far_on = Image::Sequence {
        frames: vec![vec![1; 4], vec![2; 4]],
        delays: vec![delay(10), delay(10)],
        index: usize::MAX,
        size: (1, 1),
    };
    assert!(far_on.is_valid());
}

#[test]
fn size_and_delays() {
    let single = Image::Single { data: vec![0; 24], size: (3, 2) };
    assert_eq!(single.size(), (3, 2));
    assert!(single.delays().is_none());
    let sequence = three_frames();
    assert_eq!(sequence.size(), (1, 1));
    assert_eq!(sequence.delays().unwrap(), &[delay(10), delay(20), delay(30)][..]);
}

#[test]
fn single_image_gives_the_same_frame_every_time() {
    let mut single = Image::Single { data: vec![9, 8, 7, 6], size: (1, 1) };
    for _ in 0..5 {
        assert_eq!(single.next_frame(), &[9, 8, 7, 6]);
    }
}

#[test]
fn sequence_gives_its_frames_in_turn() {
    let mut sequence = three_frames();
    assert_eq!(sequence.next_frame(), &[1; 4]);
    assert_eq!(sequence.next_frame(), &[2; 4]);
    assert_eq!(sequence.next_frame(), &[3; 4]);
    assert_eq!(sequence.next_frame(), &[1; 4]);
}

#[test]
fn sequence_repeats_after_its_length() {
    let mut sequence = three_frames();
    let mut seen: Vec<Vec<u8>> = Vec::new();
    for _ in 0..3 + 8 {
        seen.push(sequence.next_frame().to_vec());
    }
    for i in 0..8 {
        assert_eq!(seen[i], seen[i + 3]);
    }
}

#[test]
fn sequence_starts_where_its_index_says() {
    let mut sequence = Image::Sequence {
        frames: vec![vec![1; 4], vec![2; 4], vec![3; 4]],
        delays: vec![delay(10), delay(20), delay(30)],
        index: 7,
        size: (1, 1),
    };
    assert_eq!(sequence.next_frame(), &[2; 4]);
    assert_eq!(sequence.next_frame(), &[3; 4]);
    assert_eq!(sequence.next_frame(), &[1; 4]);
    let mut far_on = Image::Sequence {
        frames: vec![vec![1; 4], vec![2; 4]],
        delays: vec![delay(10), delay(10)],
        index: usize::MAX,
        size: (1, 1),
    };
    assert_eq!(far_on.next_frame(), &[2; 4]);
    assert_eq!(far_on.next_frame(), &[1; 4]);
    assert_eq!(far_on.next_frame(), &[2; 4]);
}

#[test]
fn scaled_by_one_is_the_same_image() {
    let data: Vec<u8> = (0..3 * 2 * 4).map(|b| b as u8).collect();
    let single = Image::Single { data: data.clone(), size: (3, 2) };
    let mut same = single.scaled(Zoom::one());
    assert_eq!(same.size(), (3, 2));
    assert_eq!(same.next_frame(), &data[..]);
    // Another way to write the factor one.
    let mut same = single.scaled(Zoom::from_ratio(7, 7));
    assert_eq!(same.size(), (3, 2));
    assert_eq!(same.next_frame(), &data[..]);
}

#[test]
fn scaled_doubles_every_pixel() {
    let single = Image::Single { data: vec![1, 2, 3, 4, 5, 6, 7, 8], size: (2, 1) };
    let mut twice = single.scaled(Zoom::from_ratio(2, 1));
    assert_eq!(twice.size(), (4, 2));
    assert!(twice.is_valid());
    let row = [1, 2, 3, 4, 1, 2, 3, 4, 5, 6, 7, 8, 5, 6, 7, 8];
    let mut both = row.to_vec();
    both.extend_from_slice(&row);
    assert_eq!(twice.next_frame(), &both[..]);
}

#[test]
fn scaled_halves_an_image() {
    let mut data = Vec::new();
    for pixel in 0..16u8 {
        data.extend_from_slice(&[pixel, pixel, pixel, 255]);
    }
    let single = Image::Single { data, size: (4, 4) };
    let mut half = single.scaled(Zoom::from_ratio(1, 2));
    assert_eq!(half.size(), (2, 2));
    let frame = half.next_frame().to_vec();
    assert_eq!(frame.len(), 16);
    // Every pixel of the result is a pixel of the source.
    for pixel in frame.chunks(4) {
        assert!(pixel[0] < 16 && pixel[1] == pixel[0] && pixel[2] == pixel[0] && pixel[3] == 255);
    }
}

#[test]
fn scaled_sequence_keeps_delays_and_place() {
    let mut sequence = three_frames();
    sequence.next_frame();
    let mut twice = sequence.scaled(Zoom::from_ratio(2, 1));
    assert!(twice.is_valid());
    assert_eq!(twice.size(), (2, 2));
    assert_eq!(twice.delays().unwrap(), &[delay(10), delay(20), delay(30)][..]);
    assert_eq!(twice.next_frame(), &[2; 16]);
    assert_eq!(twice.next_frame(), &[3; 16]);
    assert_eq!(twice.next_frame(), &[1; 16]);
    // The source is where it was.
    assert_eq!(sequence.next_frame(), &[2; 4]);
}

#[test]
fn scaled_to_nothing() {
    let single = Image::Single { data: vec![1, 2, 3, 4], size: (1, 1) };
    let mut none = single.scaled(Zoom::from_ratio(1, 3));
    assert_eq!(none.size(), (0, 0));
    assert!(none.is_valid());
    assert!(none.next_frame().is_empty());
    let empty = Image::Single { data: vec![], size: (0, 3) };
    let mut still_empty = empty.scaled(Zoom::from_ratio(2, 1));
    assert_eq!(still_empty.size(), (0, 6));
    assert!(still_empty.next_frame().is_empty());
}

#[test]
fn scale_image_fast_gives_pixels_and_size() {
    let (pixels, size) = scale_image_fast(&[7, 7, 7, 7], (1, 1), Zoom::from_ratio(3, 1));
    assert_eq!(size, (3, 3));
    assert_eq!(pixels, vec![7; 36]);
    let (pixels, size) = scale_image_fast(&[7, 7, 7, 7], (1, 1), Zoom::one());
    assert_eq!(size, (1, 1));
    assert_eq!(pixels, vec![7; 4]);
}

#[test]
fn resize_fills_the_canvas_asked_for() {
    let data = vec![200u8; 8 * 6 * 4];
    let smaller = resize(&data, (8, 6), (4, 3));
    assert_eq!(smaller.len(), 4 * 3 * 4);
    let same = resize(&data, (8, 6), (8, 6));
    assert_eq!(same, data);
    let none = resize(&data, (8, 6), (0, 3));
    assert!(none.is_empty());
}

#[test]
fn read_single_keeps_an_image_that_fits() {
    let data: Vec<u8> = (0..4 * 2 * 4).map(|b| b as u8).collect();
    let mut image = read_single(data.clone(), (4, 2), (4, 2));
    assert!(matches!(image, Image::Single { .. }));
    assert_eq!(image.size(), (4, 2));
    assert_eq!(image.next_frame(), &data[..]);
    let mut image = read_single(data.clone(), (4, 2), (1920, 1080));
    assert_eq!(image.size(), (4, 2));
    assert_eq!(image.next_frame(), &data[..]);
}

#[test]
fn read_single_shrinks_an_image_that_does_not_fit() {
    let data = vec![255u8; 40 * 20 * 4];
    let image = read_single(data, (40, 20), (10, 10));
    assert!(matches!(image, Image::Single { .. }));
    assert_eq!(image.size(), (10, 5));
    assert!(image.is_valid());
    assert!(image.delays().is_none());
}

#[test]
fn read_frames_makes_a_sequence() {
    let frames = vec![vec![1; 8], vec![2; 8]];
    let delays = vec![delay(40), Delay { numer_ms: 100, denom_ms: 3 }];
    let mut image = read_frames((2, 1), frames, delays.clone()).unwrap();
    assert!(matches!(image, Image::Sequence { index: 0, .. }));
    assert_eq!(image.size(), (2, 1));
    assert_eq!(image.delays().unwrap(), &delays[..]);
    assert_eq!(image.next_frame(), &[1; 8]);
    assert_eq!(image.next_frame(), &[2; 8]);
    assert_eq!(image.next_frame(), &[1; 8]);
}

#[test]
fn read_frames_refuses_what_is_no_sequence() {
    assert!(read_frames((2, 1), vec![], vec![]).is_none());
    assert!(read_frames((2, 1), vec![vec![1; 8]], vec![]).is_none());
    assert!(read_frames((2, 1), vec![vec![1; 8]], vec![delay(1), delay(2)]).is_none());
    assert!(read_frames((2, 1), vec![vec![1; 8], vec![2; 4]], vec![delay(1), delay(2)]).is_none());
    assert!(read_frames((2, 2), vec![vec![1; 8]], vec![delay(1)]).is_none());
}

#[test]
fn format_goes_by_the_extension() {
    assert_eq!(format_of(Some(b"gif")), Format::Gif);
    assert_eq!(format_of(Some(b"webp")), Format::Webp);
    assert_eq!(format_of(Some(b"png")), Format::Other);
    assert_eq!(format_of(Some(b"GIF")), Format::Other);
    assert_eq!(format_of(Some(b"gifs")), Format::Other);
    assert_eq!(format_of(Some(b"gi")), Format::Other);
    assert_eq!(format_of(Some(b"web")), Format::Other);
    assert_eq!(format_of(Some(b"webpx")), Format::Other);
    assert_eq!(format_of(Some(b"")), Format::Other);
    assert_eq!(format_of(None), Format::Other);
}

#[test]
fn which_files_are_read_as_sequences() {
    assert!(reads_frames(Format::Gif, true));
    assert!(reads_frames(Format::Gif, false));
    assert!(reads_frames(Format::Webp, true));
    assert!(!reads_frames(Format::Webp, false));
    assert!(!reads_frames(Format::Other, true));
    assert!(!reads_frames(Format::Other, false));
}

#[test]
fn next_frame_adds_one_to_the_index() {
    let mut sequence = three_frames();
    for taken in 1..8usize {
        sequence.next_frame();
        assert!(matches!(&sequence, Image::Sequence { index, .. } if *index == taken));
    }
    // Frames, delays and size are what they were.
    match &sequence {
        Image::Sequence { frames, delays, size, .. } => {
            assert_eq!(frames, &vec![vec![1u8; 4], vec![2; 4], vec![3; 4]]);
            assert_eq!(delays, &vec![delay(10), delay(20), delay(30)]);
            assert_eq!(*size, (1, 1));
        }
        Image::Single { .. } => panic!("a sequence stays a sequence"),
    }
}

#[test]
fn index_that_can_go_no_higher_starts_again_in_step() {
    let mut far_on = Image::Sequence {
        frames: vec![vec![1; 4], vec![2; 4], vec![3; 4]],
        delays: vec![delay(10), delay(20), delay(30)],
        index: usize::MAX - 1,
        size: (1, 1),
    };
    let first = (usize::MAX - 1) % 3;
    assert_eq!(far_on.next_frame()[0] as usize, first + 1);
    assert!(matches!(&far_on, Image::Sequence { index, .. } if *index == usize::MAX));
    let second = usize::MAX % 3;
    assert_eq!(second, (first + 1) % 3);
    assert_eq!(far_on.next_frame()[0] as usize, second + 1);
    // One more than the place of the frame just given.
    assert!(matches!(&far_on, Image::Sequence { index, .. } if *index == second + 1));
    assert_eq!(far_on.next_frame()[0] as usize, (second + 1) % 3 + 1);
}

#[test]
fn scaled_keeps_the_index() {
    let sequence = Image::Sequence {
        frames: vec![vec![1, 2, 3, 4], vec![5, 6, 7, 8]],
        delays: vec![delay(10), delay(20)],
        index: 1,
        size: (1, 1),
    };
    match sequence.scaled(Zoom::one()) {
        Image::Sequence { frames, delays, index, size } => {
            assert_eq!(index, 1);
            assert_eq!(size, (1, 1));
            assert_eq!(delays, vec![delay(10), delay(20)]);
            assert_eq!(frames, vec![vec![1, 2, 3, 4], vec![5, 6, 7, 8]]);
        }
        Image::Single { .. } => panic!("a sequence stays a sequence"),
    }
    let far_on = Image::Sequence {
        frames: vec![vec![1, 2, 3, 4], vec![5, 6, 7, 8]],
        delays: vec![delay(10), delay(20)],
        index: 7,
        size: (1, 1),
    };
    match far_on.scaled(Zoom::from_ratio(2, 1)) {
        Image::Sequence { frames, index, size, .. } => {
            assert_eq!(index, 7);
            assert_eq!(size, (2, 2));
            assert_eq!(frames.len(), 2);
        }
        Image::Single { .. } => panic!("a sequence stays a sequence"),
    }
}
