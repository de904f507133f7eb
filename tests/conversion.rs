use color_space_threshold_helper::convert::{hsi_from_hue, rgb_hue_byte};
use color_space_threshold_helper::enums::ColorSpace;
use color_space_threshold_helper::process;

const ALLOWED_DIFF: u8 = 1;

#[test]
fn hsb_conversion_white() {
    let rgb = [255,255,255];
    let hsb = process::convert_from_rgb(rgb, ColorSpace::HSBorHSV).unwrap();
    let dif = [hsb[0].abs_diff(0),hsb[1].abs_diff(0),hsb[2].abs_diff(255)];
    assert!(dif[0] <= ALLOWED_DIFF, "Diff was {}, higher than allowed for diff[0] hsb white", dif[0]);
    assert!(dif[1] <= ALLOWED_DIFF, "Diff was {}, higher than allowed for diff[1] hsb white", dif[1]);
    assert!(dif[2] <= ALLOWED_DIFF, "Diff was {}, higher than allowed for diff[2] hsb white", dif[2]);
}

#[test]
fn hsb_conversion_black() {
    let rgb = [0,0,0];
    let hsb = process::convert_from_rgb(rgb, ColorSpace::HSBorHSV).unwrap();
    let dif = [hsb[0].abs_diff(0),hsb[1].abs_diff(0),hsb[2].abs_diff(0)];
    assert!(dif[0] <= ALLOWED_DIFF, "Diff was {}, higher than allowed for diff[0] hsb black", dif[0]);
    assert!(dif[1] <= ALLOWED_DIFF, "Diff was {}, higher than allowed for diff[1] hsb black", dif[1]);
    assert!(dif[2] <= ALLOWED_DIFF, "Diff was {}, higher than allowed for diff[2] hsb black", dif[2]);
}

#[test]
fn hsb_conversion_red() {
    let rgb = [255,80,80];
    let hsb = process::convert_from_rgb(rgb, ColorSpace::HSBorHSV).unwrap();
    let dif = [hsb[0].abs_diff(0),hsb[1].abs_diff(174),hsb[2].abs_diff(255)];
    assert!(dif[0] <= ALLOWED_DIFF, "Diff was {}, higher than allowed for diff[0] hsb red", dif[0]);
    assert!(dif[1] <= ALLOWED_DIFF, "Diff was {}, higher than allowed for diff[1] hsb red", dif[1]);
    assert!(dif[2] <= ALLOWED_DIFF, "Diff was {}, higher than allowed for diff[2] hsb red", dif[2]);
}

#[test]
fn hsb_conversion_blue() {
    let rgb = [102,0,204];
    let hsb = process::convert_from_rgb(rgb, ColorSpace::HSBorHSV).unwrap();
    let dif = [hsb[0].abs_diff(191),hsb[1].abs_diff(255),hsb[2].abs_diff(204)];
    assert!(dif[0] <= ALLOWED_DIFF, "Diff was {}, higher than allowed for diff[0] hsb blue", dif[0]);
    assert!(dif[1] <= ALLOWED_DIFF, "Diff was {}, higher than allowed for diff[1] hsb blue", dif[1]);
    assert!(dif[2] <= ALLOWED_DIFF, "Diff was {}, higher than allowed for diff[2] hsb blue", dif[2]);
}

#[test]
fn hsb_conversion_yellow() {
    let rgb = [255,255,204];
    let hsb = process::convert_from_rgb(rgb, ColorSpace::HSBorHSV).unwrap();
    let dif = [hsb[0].abs_diff(42),hsb[1].abs_diff(51),hsb[2].abs_diff(255)];
    assert!(dif[0] <= ALLOWED_DIFF, "Diff was {}, higher than allowed for diff[0] hsb yellow", dif[0]);
    assert!(dif[1] <= ALLOWED_DIFF, "Diff was {}, higher than allowed for diff[1] hsb yellow", dif[1]);
    assert!(dif[2] <= ALLOWED_DIFF, "Diff was {}, higher than allowed for diff[2] hsb yellow", dif[2]);
}

#[test]
fn hsb_conversion_green() {
    let rgb = [0,153,51];
    let hsb = process::convert_from_rgb(rgb, ColorSpace::HSBorHSV).unwrap();
    let dif = [hsb[0].abs_diff(99),hsb[1].abs_diff(255),hsb[2].abs_diff(153)];
    assert!(dif[0] <= ALLOWED_DIFF, "Diff was {}, higher than allowed for diff[0] hsb green", dif[0]);
    assert!(dif[1] <= ALLOWED_DIFF, "Diff was {}, higher than allowed for diff[1] hsb green", dif[1]);
    assert!(dif[2] <= ALLOWED_DIFF, "Diff was {}, higher than allowed for diff[2] hsb green", dif[2]);
}

#[test]
fn hsl_conversion_white() {
    let rgb = [255,255,255];
    let hsl = process::convert_from_rgb(rgb, ColorSpace::HSL).unwrap();
    let dif = [hsl[0].abs_diff(0),hsl[1].abs_diff(0),hsl[2].abs_diff(255)];
    assert!(dif[0] <= ALLOWED_DIFF, "Diff was {}, higher than allowed for diff[0] hsl white", dif[0]);
    assert!(dif[1] <= ALLOWED_DIFF, "Diff was {}, higher than allowed for diff[1] hsl white", dif[1]);
    assert!(dif[2] <= ALLOWED_DIFF, "Diff was {}, higher than allowed for diff[2] hsl white", dif[2]);
}

#[test]
fn hsl_conversion_black() {
    let rgb = [0,0,0];
    let hsl = process::convert_from_rgb(rgb, ColorSpace::HSL).unwrap();
    let dif = [hsl[0].abs_diff(0),hsl[1].abs_diff(0),hsl[2].abs_diff(0)];
    assert!(dif[0] <= ALLOWED_DIFF, "Diff was {}, higher than allowed for diff[0] hsl black", dif[0]);
    assert!(dif[1] <= ALLOWED_DIFF, "Diff was {}, higher than allowed for diff[1] hsl black", dif[1]);
    assert!(dif[2] <= ALLOWED_DIFF, "Diff was {}, higher than allowed for diff[2] hsl black", dif[2]);
}

#[test]
fn hsl_conversion_red() {
    let rgb = [255,80,80];
    let hsl = process::convert_from_rgb(rgb, ColorSpace::HSL).unwrap();
    let dif = [hsl[0].abs_diff(0),hsl[1].abs_diff(255),hsl[2].abs_diff(167)];
    assert!(dif[0] <= ALLOWED_DIFF, "Diff was {}, higher than allowed for diff[0] hsl red", dif[0]);
    assert!(dif[1] <= ALLOWED_DIFF, "Diff was {}, higher than allowed for diff[1] hsl red", dif[1]);
    assert!(dif[2] <= ALLOWED_DIFF, "Diff was {}, higher than allowed for diff[2] hsl red", dif[2]);
}

#[test]
fn hsl_conversion_blue() {
    let rgb = [102,0,204];
    let hsl = process::convert_from_rgb(rgb, ColorSpace::HSL).unwrap();
    let dif = [hsl[0].abs_diff(191),hsl[1].abs_diff(255),hsl[2].abs_diff(102)];
    assert!(dif[0] <= ALLOWED_DIFF, "Diff was {}, higher than allowed for diff[0] hsl blue", dif[0]);
    assert!(dif[1] <= ALLOWED_DIFF, "Diff was {}, higher than allowed for diff[1] hsl blue", dif[1]);
    assert!(dif[2] <= ALLOWED_DIFF, "Diff was {}, higher than allowed for diff[2] hsl blue", dif[2]);
}

#[test]
fn hsl_conversion_yellow() {
    let rgb = [255,255,204];
    let hsl = process::convert_from_rgb(rgb, ColorSpace::HSL).unwrap();
    let dif = [hsl[0].abs_diff(42),hsl[1].abs_diff(255),hsl[2].abs_diff(229)];
    assert!(dif[0] <= ALLOWED_DIFF, "Diff was {}, higher than allowed for diff[0] hsl yellow", dif[0]);
    assert!(dif[1] <= ALLOWED_DIFF, "Diff was {}, higher than allowed for diff[1] hsl yellow", dif[1]);
    assert!(dif[2] <= ALLOWED_DIFF, "Diff was {}, higher than allowed for diff[2] hsl yellow", dif[2]);
}

#[test]
fn yuv_conversion_white() {
    let rgb = [255,255,255];
    let yuv = process::convert_from_rgb(rgb, ColorSpace::YUV).unwrap();
    let dif = [yuv[0].abs_diff(255),yuv[1].abs_diff(128),yuv[2].abs_diff(128)];
    assert!(dif[0] <= ALLOWED_DIFF, "Diff was {}, higher than allowed for diff[0] yuv white", dif[0]);
    assert!(dif[1] <= ALLOWED_DIFF, "Diff was {}, higher than allowed for diff[1] yuv white", dif[1]);
    assert!(dif[2] <= ALLOWED_DIFF, "Diff was {}, higher than allowed for diff[2] yuv white", dif[2]);
}

#[test]
fn yuv_conversion_black() {
    let rgb = [0,0,0];
    let yuv = process::convert_from_rgb(rgb, ColorSpace::YUV).unwrap();
    let dif = [yuv[0].abs_diff(0),yuv[1].abs_diff(128),yuv[2].abs_diff(128)];
    assert!(dif[0] <= ALLOWED_DIFF, "Diff was {}, higher than allowed for diff[0] yuv black", dif[0]);
    assert!(dif[1] <= ALLOWED_DIFF, "Diff was {}, higher than allowed for diff[1] yuv black", dif[1]);
    assert!(dif[2] <= ALLOWED_DIFF, "Diff was {}, higher than allowed for diff[2] yuv black", dif[2]);
}

#[test]
fn yuv_conversion_red() {
    let rgb = [255,80,80];
    let yuv = process::convert_from_rgb(rgb, ColorSpace::YUV).unwrap();
    let dif = [yuv[0].abs_diff(132),yuv[1].abs_diff(98),yuv[2].abs_diff(215)];
    assert!(dif[0] <= ALLOWED_DIFF, "Diff was {}, higher than allowed for diff[0] yuv red", dif[0]);
    assert!(dif[1] <= ALLOWED_DIFF, "Diff was {}, higher than allowed for diff[1] yuv red", dif[1]);
    assert!(dif[2] <= ALLOWED_DIFF, "Diff was {}, higher than allowed for diff[2] yuv red", dif[2]);
}

#[test]
fn yuv_conversion_blue() {
    let rgb = [102,0,204];
    let yuv = process::convert_from_rgb(rgb, ColorSpace::YUV).unwrap();
    let dif = [yuv[0].abs_diff(53),yuv[1].abs_diff(212),yuv[2].abs_diff(162)];
    assert!(dif[0] <= ALLOWED_DIFF, "Diff was {}, higher than allowed for diff[0] yuv blue", dif[0]);
    assert!(dif[1] <= ALLOWED_DIFF, "Diff was {}, higher than allowed for diff[1] yuv blue", dif[1]);
    assert!(dif[2] <= ALLOWED_DIFF, "Diff was {}, higher than allowed for diff[2] yuv blue", dif[2]);
}

#[test]
fn yuv_conversion_yellow() {
    let rgb = [255,255,204];
    let yuv = process::convert_from_rgb(rgb, ColorSpace::YUV).unwrap();
    let dif = [yuv[0].abs_diff(249),yuv[1].abs_diff(102),yuv[2].abs_diff(132)];
    assert!(dif[0] <= ALLOWED_DIFF, "Diff was {}, higher than allowed for diff[0] yuv yellow", dif[0]);
    assert!(dif[1] <= ALLOWED_DIFF, "Diff was {}, higher than allowed for diff[1] yuv yellow", dif[1]);
    assert!(dif[2] <= ALLOWED_DIFF, "Diff was {}, higher than allowed for diff[2] yuv yellow", dif[2]);
}

#[test]
fn yuv_conversion_green() {
    let rgb = [0,153,51];
    let yuv = process::convert_from_rgb(rgb, ColorSpace::YUV).unwrap();
    let dif = [yuv[0].abs_diff(95),yuv[1].abs_diff(102),yuv[2].abs_diff(59)];
    assert!(dif[0] <= ALLOWED_DIFF, "Diff was {}, higher than allowed for diff[0] yuv green", dif[0]);
    assert!(dif[1] <= ALLOWED_DIFF, "Diff was {}, higher than allowed for diff[1] yuv green", dif[1]);
    assert!(dif[2] <= ALLOWED_DIFF, "Diff was {}, higher than allowed for diff[2] yuv green", dif[2]);
}

#[test]
fn exact_hsv_values() {
    assert_eq!(process::convert_from_rgb([255, 80, 80], ColorSpace::HSBorHSV), Some([0, 175, 255]));
    assert_eq!(process::convert_from_rgb([102, 0, 204], ColorSpace::HSBorHSV), Some([192, 255, 204]));
    // hue 300 degrees: 300 * 255 / 360 = 212.5, rounded up
    assert_eq!(process::convert_from_rgb([255, 0, 255], ColorSpace::HSBorHSV), Some([213, 255, 255]));
    // grey has hue and saturation 0
    assert_eq!(process::convert_from_rgb([77, 77, 77], ColorSpace::HSBorHSV), Some([0, 0, 77]));
}

#[test]
fn exact_hsl_values() {
    assert_eq!(process::convert_from_rgb([255, 80, 80], ColorSpace::HSL), Some([0, 255, 168]));
    assert_eq!(process::convert_from_rgb([0, 153, 51], ColorSpace::HSL), Some([100, 255, 77]));
    // lightness 0.5 exactly: (255 + 0) / 2 = 127.5, rounded up
    assert_eq!(process::convert_from_rgb([0, 0, 255], ColorSpace::HSL), Some([170, 255, 128]));
    assert_eq!(process::convert_from_rgb([255, 255, 255], ColorSpace::HSL), Some([0, 0, 255]));
}

#[test]
fn exact_yuv_values() {
    assert_eq!(process::convert_from_rgb([255, 80, 80], ColorSpace::YUV), Some([133, 99, 216]));
    assert_eq!(process::convert_from_rgb([0, 153, 51], ColorSpace::YUV), Some([96, 103, 60]));
}

#[test]
fn yuv_chroma_is_clamped() {
    // U of pure blue is 127.5 + 128 = 255.5, rounded up to 256, clamped to 255
    assert_eq!(process::convert_from_rgb([0, 0, 255], ColorSpace::YUV), Some([30, 255, 108]));
    // V of pure red is 127.5 + 128 = 255.5, clamped likewise
    assert_eq!(process::convert_from_rgb([255, 0, 0], ColorSpace::YUV), Some([77, 85, 255]));
}

#[test]
fn rgb_conversion_is_identity() {
    for rgb in [[0, 0, 0], [255, 255, 255], [1, 2, 3], [200, 17, 99]] {
        assert_eq!(process::convert_from_rgb(rgb, ColorSpace::RGB), Some(rgb));
    }
}

#[test]
fn inexact_spaces_are_left_to_the_caller() {
    assert_eq!(process::convert_from_rgb([10, 20, 30], ColorSpace::HSI), None);
    assert_eq!(process::convert_from_rgb([10, 20, 30], ColorSpace::LabCIE), None);
}

#[test]
fn conversions_land_in_byte_range() {
    let spaces = [ColorSpace::RGB, ColorSpace::HSBorHSV, ColorSpace::HSL, ColorSpace::YUV];
    for r in (0..=255u32).step_by(15) {
        for g in (0..=255u32).step_by(17) {
            for b in (0..=255u32).step_by(51) {
                for s in spaces {
                    let c = process::convert_from_rgb([r as u8, g as u8, b as u8], s);
                    assert!(c.is_some());
                }
            }
        }
    }
}

#[test]
fn hsi_saturation_and_intensity() {
    // the hue byte is passed through; saturation 255 * (1 - 3 * 80 / 415)
    // = 107.53 and intensity 415 / 3 = 138.33 are rounded up
    assert_eq!(hsi_from_hue([255, 80, 80], 9), [9, 108, 139]);
    assert_eq!(hsi_from_hue([102, 0, 204], 197), [197, 255, 102]);
    assert_eq!(hsi_from_hue([255, 255, 255], 0), [0, 0, 255]);
    // black gives zeros, whatever hue is handed in
    assert_eq!(hsi_from_hue([0, 0, 0], 40), [0, 0, 0]);
}

#[test]
fn hue_byte_of_primaries() {
    assert_eq!(rgb_hue_byte(255, 0, 0), 0);
    // 120 degrees: 85 exactly
    assert_eq!(rgb_hue_byte(0, 255, 0), 85);
    // 240 degrees: 170 exactly
    assert_eq!(rgb_hue_byte(0, 0, 255), 170);
    // just below 360 degrees
    assert_eq!(rgb_hue_byte(255, 0, 1), 255);
}
