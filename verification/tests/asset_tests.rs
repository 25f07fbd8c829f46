// Comparisons of image files on disk. The picture files are synthesized on
// the fly: four visually distinct block patterns stand in for four photos,
// and each "edited" variant is the same pattern, slightly brightened and
// re-encoded. Cells are 8x8 pixels with strong contrast, so lossy JPEG
// round-trips cannot flip any fingerprint bit, while any two distinct
// patterns disagree in half of the 64 cells.

use imgcmp::ahash::are_images_equal;

// The test harness runs in a read-only directory, so the pictures are laid
// down under a writable scratch directory instead of beside the sources.
const ASSET_DIR: &str = "/tmp/imgcmp_assets";

fn asset(name: &str) -> String {
    format!("{}/{}", ASSET_DIR, name)
}

const CAT: u8 = 0;
const CAT2: u8 = 1;
const ROMA: u8 = 2;
const ROMA2: u8 = 3;

fn cell_dark(subject: u8, row: u32, col: u32) -> bool {
    match subject {
        CAT => col % 2 == 0,
        CAT2 => row % 2 == 0,
        ROMA => row < 4,
        _ => col < 4,
    }
}

fn write_asset(path: &str, subject: u8, edited: bool, format: image::ImageFormat) {
    fs_extra::dir::create_all(ASSET_DIR, false).expect("could not create the asset directory");
    let mut buf = vec![0u8; 64 * 64];
    for y in 0..64u32 {
        for x in 0..64u32 {
            let base: u8 = if cell_dark(subject, y / 8, x / 8) { 30 } else { 220 };
            let value = if edited { base + 8 } else { base };
            buf[(y * 64 + x) as usize] = value;
        }
    }
    image::save_buffer_with_format(path, &buf, 64, 64, image::ColorType::L8, format)
        .expect("could not write a test image");
}

struct AssetDir;

impl Drop for AssetDir {
    fn drop(&mut self) {
        let _ = fs_extra::dir::remove(ASSET_DIR);
    }
}

fn jpg() -> image::ImageFormat {
    image::ImageFormat::Jpeg
}

fn png() -> image::ImageFormat {
    image::ImageFormat::Png
}

#[test]
fn test_hash_equal_1() {
    let _guard = AssetDir;
    write_asset(&asset("cat.jpg"), CAT, false, jpg());
    write_asset(&asset("cat_edited.jpg"), CAT, true, jpg());
    assert!(are_images_equal(&asset("cat.jpg"), &asset("cat_edited.jpg")).expect("Test failed"));
}

#[test]
fn test_hash_equal_2() {
    let _guard = AssetDir;
    write_asset(&asset("cat2.jpg"), CAT2, false, jpg());
    write_asset(&asset("cat2_edited.jpg"), CAT2, true, jpg());
    assert!(are_images_equal(&asset("cat2.jpg"), &asset("cat2_edited.jpg")).expect("Test failed"));
}

#[test]
fn test_hash_equal_3() {
    let _guard = AssetDir;
    write_asset(&asset("ferrari_roma.jpg"), ROMA, false, jpg());
    write_asset(&asset("ferrari_roma_edited.png"), ROMA, true, png());
    assert!(
        are_images_equal(&asset("ferrari_roma.jpg"), &asset("ferrari_roma_edited.png"))
            .expect("Test failed")
    );
}

#[test]
fn test_has_equal_4() {
    let _guard = AssetDir;
    write_asset(&asset("ferrari_roma2.jpg"), ROMA2, false, jpg());
    write_asset(&asset("ferrari_roma2_edited.jpg"), ROMA2, true, jpg());
    assert!(
        are_images_equal(&asset("ferrari_roma2.jpg"), &asset("ferrari_roma2_edited.jpg"))
            .expect("Test failed")
    );
}

#[test]
fn test_not_equal_1() {
    let _guard = AssetDir;
    write_asset(&asset("cat2.jpg"), CAT2, false, jpg());
    write_asset(&asset("cat_edited.jpg"), CAT, true, jpg());
    assert!(!are_images_equal(&asset("cat2.jpg"), &asset("cat_edited.jpg")).expect("Test failed"));
}

#[test]
fn test_not_equal_2() {
    let _guard = AssetDir;
    write_asset(&asset("ferrari_roma.jpg"), ROMA, false, jpg());
    write_asset(&asset("cat_edited.jpg"), CAT, true, jpg());
    assert!(
        !are_images_equal(&asset("ferrari_roma.jpg"), &asset("cat_edited.jpg"))
            .expect("Test failed")
    );
}

#[test]
fn test_not_equal_3() {
    let _guard = AssetDir;
    write_asset(&asset("cat.jpg"), CAT, false, jpg());
    write_asset(&asset("cat2_edited.jpg"), CAT2, true, jpg());
    assert!(!are_images_equal(&asset("cat.jpg"), &asset("cat2_edited.jpg")).expect("Test failed"));
}

#[test]
fn test_not_equal_4() {
    let _guard = AssetDir;
    write_asset(&asset("ferrari_roma2.jpg"), ROMA2, false, jpg());
    write_asset(&asset("ferrari_roma_edited.png"), ROMA, true, png());
    assert!(
        !are_images_equal(&asset("ferrari_roma2.jpg"), &asset("ferrari_roma_edited.png"))
            .expect("Test failed")
    );
}

#[test]
fn test_not_equal_5() {
    let _guard = AssetDir;
    write_asset(&asset("ferrari_roma.jpg"), ROMA, false, jpg());
    write_asset(&asset("ferrari_roma2_edited.jpg"), ROMA2, true, jpg());
    assert!(
        !are_images_equal(&asset("ferrari_roma.jpg"), &asset("ferrari_roma2_edited.jpg"))
            .expect("Test failed")
    );
}

#[test]
fn test_asset_comparisons() {
    let _guard = AssetDir;
    write_asset(&asset("cat.jpg"), CAT, false, jpg());
    write_asset(&asset("cat_edited.jpg"), CAT, true, jpg());
    write_asset(&asset("cat2.jpg"), CAT2, false, jpg());
    write_asset(&asset("cat2_edited.jpg"), CAT2, true, jpg());
    write_asset(&asset("ferrari_roma.jpg"), ROMA, false, jpg());
    write_asset(&asset("ferrari_roma_edited.png"), ROMA, true, png());
    write_asset(&asset("ferrari_roma2.jpg"), ROMA2, false, jpg());
    write_asset(&asset("ferrari_roma2_edited.jpg"), ROMA2, true, jpg());
    assert!(are_images_equal(&asset("cat.jpg"), &asset("cat_edited.jpg")).expect("Test failed"));
    assert!(are_images_equal(&asset("cat2.jpg"), &asset("cat2_edited.jpg")).expect("Test failed"));
    assert!(
        are_images_equal(&asset("ferrari_roma.jpg"), &asset("ferrari_roma_edited.png"))
            .expect("Test failed")
    );
    assert!(
        are_images_equal(&asset("ferrari_roma2.jpg"), &asset("ferrari_roma2_edited.jpg"))
            .expect("Test failed")
    );
    assert!(!are_images_equal(&asset("cat2.jpg"), &asset("cat_edited.jpg")).expect("Test failed"));
    assert!(
        !are_images_equal(&asset("ferrari_roma.jpg"), &asset("cat_edited.jpg"))
            .expect("Test failed")
    );
    assert!(!are_images_equal(&asset("cat.jpg"), &asset("cat2_edited.jpg")).expect("Test failed"));
    assert!(
        !are_images_equal(&asset("ferrari_roma2.jpg"), &asset("ferrari_roma_edited.png"))
            .expect("Test failed")
    );
    assert!(
        !are_images_equal(&asset("ferrari_roma.jpg"), &asset("ferrari_roma2_edited.jpg"))
            .expect("Test failed")
    );
}
