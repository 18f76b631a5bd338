use raytracer::settings::{RenderSettings, SettingsError};

#[test]
fn accepted_settings() {
    let s = RenderSettings::new(20, 10, 4, 5).unwrap();
    assert_eq!(s, RenderSettings { width: 20, height: 10, samples_per_pixel: 4, max_depth: 5 });
    assert_eq!(s.pixel_count(), 200);
    assert!(RenderSettings::new(1, 1, 1, 0).is_ok());
}

#[test]
fn rejected_settings() {
    assert_eq!(RenderSettings::new(0, 10, 4, 5), Err(SettingsError::ZeroWidth));
    assert_eq!(RenderSettings::new(20, 0, 4, 5), Err(SettingsError::ZeroHeight));
    assert_eq!(RenderSettings::new(20, 10, 0, 5), Err(SettingsError::ZeroSamples));
    assert_eq!(RenderSettings::new(usize::MAX, 2, 4, 5), Err(SettingsError::TooManyPixels));
}
