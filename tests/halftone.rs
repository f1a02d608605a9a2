use halftone::angle::{Angle, ScreenAngles};
use halftone::channel::{
    channel_setup, check_channels, downsample_size, plan_channels, upsample_size, HalftoneError,
    GRID_SPACING, MEDIAN_KERNEL,
};
use halftone::dot::{dot_color, dot_radius};
use halftone::plane::{GridPoint, Plane, Size};
use halftone::render::{plan_dots, Dot};
use rotated_grid::GridPositionIterator;

/// The grid points that rotated-grid lays over a plane, cut to whole pixels.
fn grid_points(rows: usize, cols: usize, spacing: usize, degrees: i64) -> Vec<GridPoint> {
    let grid = GridPositionIterator::new(
        rows as f64,
        cols as f64,
        spacing as f64,
        spacing as f64,
        0.0,
        0.0,
        rotated_grid::Angle::from_degrees(degrees as f64),
    );
    grid.map(|p| GridPoint { x: p.x as usize, y: p.y as usize }).collect()
}

fn size(rows: usize, cols: usize) -> Size {
    Size { rows, cols }
}

#[test]
fn radius_follows_sample() {
    // Radii are in sixteenths of a pixel: 16 is one pixel.
    assert_eq!(dot_radius(0), 0);
    assert_eq!(dot_radius(1), 0);
    assert_eq!(dot_radius(2), 1);
    assert_eq!(dot_radius(17), 8);
    assert_eq!(dot_radius(34), 16);
    assert_eq!(dot_radius(128), 60);
    assert_eq!(dot_radius(254), 120);
    assert_eq!(dot_radius(255), 120);
}

#[test]
fn radius_matches_real_formula() {
    for v in 0..=255u32 {
        let expected = (v as f64 / 255.0 * 7.5 * 16.0).round() as u32;
        assert_eq!(dot_radius(v as u8), expected, "sample {v}");
    }
}

#[test]
fn color_is_brightened_square_root() {
    assert_eq!(dot_color(0), 0);
    assert_eq!(dot_color(1), 16);
    assert_eq!(dot_color(64), 128);
    assert_eq!(dot_color(128), 181);
    assert_eq!(dot_color(255), 255);
}

#[test]
fn color_matches_real_formula() {
    for v in 0..=255u32 {
        let expected = ((v as f64 / 255.0).sqrt() * 255.0).round() as u8;
        assert_eq!(dot_color(v as u8), expected, "sample {v}");
    }
}

#[test]
fn brighter_samples_never_give_smaller_dots() {
    for a in 0..=255u8 {
        for b in a..=255u8 {
            assert!(dot_radius(a) <= dot_radius(b));
            assert!(dot_color(a) <= dot_color(b));
        }
    }
}

#[test]
fn plane_new_checks_sample_count() {
    assert!(Plane::new(2, 3, vec![0; 6]).is_some());
    assert!(Plane::new(2, 3, vec![0; 5]).is_none());
    assert!(Plane::new(2, 3, vec![0; 7]).is_none());
    assert!(Plane::new(usize::MAX, 2, vec![]).is_none());
    let p = Plane::new(2, 3, vec![1, 2, 3, 4, 5, 6]).unwrap();
    assert_eq!(p.get(0, 0), 1);
    assert_eq!(p.get(0, 2), 3);
    assert_eq!(p.get(1, 0), 4);
    assert_eq!(p.get(1, 2), 6);
    assert_eq!(p.size(), size(2, 3));
}

#[test]
fn plane_filled_holds_value() {
    let p = Plane::filled(size(4, 5), 9).unwrap();
    assert_eq!(p.rows(), 4);
    assert_eq!(p.cols(), 5);
    assert!(p.samples().iter().all(|&v| v == 9));
    assert_eq!(p.samples().len(), 20);
    assert!(Plane::filled(size(usize::MAX, 2), 0).is_none());
}

#[test]
fn plan_dots_skips_points_off_the_plane() {
    let p = Plane::new(2, 3, vec![0, 34, 68, 128, 200, 255]).unwrap();
    let points = vec![
        GridPoint { x: 0, y: 1 },
        GridPoint { x: 2, y: 0 },
        GridPoint { x: 1, y: 2 },
        GridPoint { x: 0, y: 3 },
        GridPoint { x: 1, y: 0 },
    ];
    let dots = plan_dots(&p, &points);
    assert_eq!(
        dots,
        vec![
            Dot { x: 0, y: 1, radius_sixteenths: 16, color: 93 },
            Dot { x: 1, y: 2, radius_sixteenths: 120, color: 255 },
            Dot { x: 1, y: 0, radius_sixteenths: 60, color: 181 },
        ]
    );
}

#[test]
fn plan_dots_of_no_points_is_empty() {
    let p = Plane::filled(size(3, 3), 200).unwrap();
    assert!(plan_dots(&p, &vec![]).is_empty());
    let empty = Plane::new(0, 0, vec![]).unwrap();
    assert!(plan_dots(&empty, &vec![GridPoint { x: 0, y: 0 }]).is_empty());
}

#[test]
fn rendering_is_deterministic() {
    let samples: Vec<u8> = (0..40 * 30).map(|i| (i * 7 % 256) as u8).collect();
    let first = Plane::new(40, 30, samples.clone()).unwrap();
    let second = Plane::new(40, 30, samples).unwrap();
    let pts = grid_points(40, 30, 7, 33);
    assert_eq!(plan_dots(&first, &pts), plan_dots(&second, &pts));
    assert_eq!(grid_points(40, 30, 7, 33), pts);
}

#[test]
fn unrotated_grid_covers_plane() {
    let pts = grid_points(100, 100, 7, 0);
    let per_side = (100 + 6) / 7;
    assert_eq!(pts.len(), per_side * per_side);
    assert!(pts.iter().all(|q| q.x % 7 == 0 && q.y % 7 == 0));
    let p = Plane::filled(size(100, 100), 50).unwrap();
    assert_eq!(plan_dots(&p, &pts).len(), 225);
}

#[test]
fn rotation_changes_count_by_boundary_margin_only() {
    let p = Plane::filled(size(100, 100), 50).unwrap();
    let straight = plan_dots(&p, &grid_points(100, 100, 7, 0)).len() as i64;
    let turned = plan_dots(&p, &grid_points(100, 100, 7, 33)).len() as i64;
    assert!(straight > 0 && turned > 0);
    let margin = 4 * ((100 + 6) / 7);
    assert!((straight - turned).abs() <= margin);
}

#[test]
fn scale_round_trip_keeps_size() {
    for (r, c) in [(1, 1), (64, 64), (3, 7), (480, 640)] {
        let s = size(r, c);
        let up = upsample_size(s).unwrap();
        assert_eq!(up, size(2 * r, 2 * c));
        assert_eq!(downsample_size(up), s);
    }
    assert!(upsample_size(size(usize::MAX, 1)).is_none());
    assert!(upsample_size(size(1, usize::MAX / 2 + 1)).is_none());
    assert_eq!(downsample_size(size(5, 9)), size(2, 4));
}

#[test]
fn dark_planes_give_black_dots_on_every_channel() {
    let angles = ScreenAngles::standard();
    for channel in 0..2 {
        let p = Plane::filled(size(50, 50), 0).unwrap();
        let degrees = angles.angle(channel).degrees();
        let dots = plan_dots(&p, &grid_points(50, 50, 7, degrees));
        assert!(!dots.is_empty());
        assert!(dots.iter().all(|d| d.radius_sixteenths == 0 && d.color == 0));
    }
}

#[test]
fn mid_gray_channel_gives_equal_dots() {
    let s = size(64, 64);
    let setup = channel_setup(s, 0, &ScreenAngles::standard()).unwrap();
    assert_eq!(setup.canvas, size(128, 128));
    assert_eq!(setup.output, s);
    let upsampled = Plane::filled(setup.canvas, 128).unwrap();
    let pts = grid_points(128, 128, setup.spacing, setup.angle.degrees());
    let dots = plan_dots(&upsampled, &pts);
    assert_eq!(dots.len(), 19 * 19);
    for d in &dots {
        // 128 / 34 = 3.76 pixels, to the nearest sixteenth.
        assert_eq!(d.radius_sixteenths, 60);
        assert_eq!(d.color, 181);
        assert_eq!(d.x % 7, 0);
        assert_eq!(d.y % 7, 0);
    }
}

#[test]
fn screen_angles_step_by_channel() {
    let a = ScreenAngles::standard();
    assert_eq!(a.angle(0).degrees(), 0);
    assert_eq!(a.angle(1).degrees(), 33);
    assert_eq!(a.angle(2).degrees(), 66);
    let b = ScreenAngles::stepped(-45);
    assert_eq!(b.angle(2).degrees(), -90);
    let c = ScreenAngles::new(Angle::from_degrees(15), Angle::from_degrees(75), Angle::from_degrees(0));
    assert_eq!(c.angle(0), Angle::from_degrees(15));
    assert_eq!(c.angle(1).degrees(), 75);
    assert_eq!(c.angle(2).degrees(), 0);
}

#[test]
fn check_channels_accepts_three_equal_planes() {
    let s = size(10, 20);
    assert_eq!(check_channels(&vec![s, s, s]), Ok(s));
}

#[test]
fn check_channels_rejects_wrong_count() {
    let s = size(10, 20);
    assert_eq!(check_channels(&vec![s, s]), Err(HalftoneError::InvalidChannelCount { count: 2 }));
    assert_eq!(check_channels(&vec![]), Err(HalftoneError::InvalidChannelCount { count: 0 }));
    assert_eq!(
        check_channels(&vec![s, s, s, s]),
        Err(HalftoneError::InvalidChannelCount { count: 4 })
    );
}

#[test]
fn check_channels_names_first_mismatch() {
    let s = size(10, 20);
    let t = size(20, 10);
    assert_eq!(check_channels(&vec![s, t, t]), Err(HalftoneError::SizeMismatch { channel: 1 }));
    assert_eq!(check_channels(&vec![s, s, t]), Err(HalftoneError::SizeMismatch { channel: 2 }));
}

#[test]
fn channel_setup_reports_overflow() {
    let a = ScreenAngles::standard();
    assert_eq!(
        channel_setup(size(usize::MAX, 4), 2, &a),
        Err(HalftoneError::SizeOverflow { channel: 2 })
    );
}

#[test]
fn plan_channels_keeps_channel_order() {
    let s = size(30, 40);
    let setups = plan_channels(&vec![s, s, s], &ScreenAngles::standard()).unwrap();
    assert_eq!(setups.len(), 3);
    for (k, c) in setups.iter().enumerate() {
        assert_eq!(c.channel, k);
        assert_eq!(c.angle.degrees(), 33 * k as i64);
        assert_eq!(c.canvas, size(60, 80));
        assert_eq!(c.output, s);
        assert_eq!(c.spacing, GRID_SPACING);
        assert_eq!(c.median_kernel, MEDIAN_KERNEL);
    }
}

#[test]
fn plan_channels_reports_errors() {
    let a = ScreenAngles::standard();
    let s = size(30, 40);
    assert_eq!(plan_channels(&vec![s], &a), Err(HalftoneError::InvalidChannelCount { count: 1 }));
    assert_eq!(
        plan_channels(&vec![s, s, size(30, 41)], &a),
        Err(HalftoneError::SizeMismatch { channel: 2 })
    );
    let big = size(usize::MAX, 1);
    assert_eq!(
        plan_channels(&vec![big, big, big], &a),
        Err(HalftoneError::SizeOverflow { channel: 0 })
    );
}
