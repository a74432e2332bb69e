use egui_miniquad::backend::{
    FilterMode, TextureCommand, TextureFormat, TextureParams, TextureWrap,
};
use egui_miniquad::gui::{ColorImage, FontImage, ImageData, ImageDelta, TextureFilter, TextureId};
use egui_miniquad::texture::{expand_coverage, rgba_bytes, TextureCache, TextureRecord};

/// A backend that only counts what it is asked to do and remembers which slots are live.
struct CountingBackend {
    creates: usize,
    destroys: usize,
    updates: usize,
    not_found: usize,
    live: Vec<usize>,
}

impl CountingBackend {
    fn new() -> Self {
        CountingBackend { creates: 0, destroys: 0, updates: 0, not_found: 0, live: Vec::new() }
    }

    fn run(&mut self, commands: &[TextureCommand]) {
        for command in commands {
            match command {
                TextureCommand::Create { slot, .. } => {
                    assert!(!self.live.contains(slot), "slot {slot} created twice");
                    self.live.push(*slot);
                    self.creates += 1;
                }
                TextureCommand::UpdatePart { slot, .. } => {
                    assert!(self.live.contains(slot), "update of a dead slot {slot}");
                    self.updates += 1;
                }
                TextureCommand::Delete { slot } => {
                    assert!(self.live.contains(slot), "delete of a dead slot {slot}");
                    self.live.retain(|s| s != slot);
                    self.destroys += 1;
                }
                TextureCommand::NotFound { .. } => self.not_found += 1,
            }
        }
    }
}

fn color(width: usize, height: usize, fill: [u8; 4]) -> ImageData {
    ImageData::Color(ColorImage { width, height, pixels: vec![fill; width * height] })
}

fn full(image: ImageData, magnification: TextureFilter) -> ImageDelta {
    ImageDelta { image, magnification, pos: None }
}

fn patch(image: ImageData, x: usize, y: usize) -> ImageDelta {
    ImageDelta { image, magnification: TextureFilter::Linear, pos: Some((x, y)) }
}

#[test]
fn color_pixels_become_bytes_channel_by_channel() {
    let image = ImageData::Color(ColorImage {
        width: 2,
        height: 1,
        pixels: vec![[1, 2, 3, 4], [250, 251, 252, 253]],
    });
    assert_eq!(rgba_bytes(&image), vec![1, 2, 3, 4, 250, 251, 252, 253]);
}

#[test]
fn coverage_becomes_white_of_that_alpha() {
    assert_eq!(expand_coverage(&vec![0, 7, 255]), vec![0, 0, 0, 0, 7, 7, 7, 7, 255, 255, 255, 255]);
    let image = ImageData::Font(FontImage { width: 1, height: 2, pixels: vec![128, 3] });
    assert_eq!(rgba_bytes(&image), vec![128, 128, 128, 128, 3, 3, 3, 3]);
}

#[test]
fn an_image_without_texels_has_no_bytes() {
    assert_eq!(rgba_bytes(&color(0, 0, [0; 4])), Vec::<u8>::new());
    assert_eq!(expand_coverage(&Vec::new()), Vec::<u8>::new());
}

#[test]
fn well_formed_means_width_times_height_texels() {
    assert!(color(3, 2, [0; 4]).is_well_formed());
    assert!(color(0, 5, [0; 4]).is_well_formed());
    let short = ImageData::Color(ColorImage { width: 3, height: 2, pixels: vec![[0; 4]; 5] });
    assert!(!short.is_well_formed());
    let long = ImageData::Font(FontImage { width: 1, height: 1, pixels: vec![0, 0] });
    assert!(!long.is_well_formed());
    let huge = ImageData::Font(FontImage { width: usize::MAX, height: 2, pixels: vec![] });
    assert!(!huge.is_well_formed());
    assert_eq!(short.width(), 3);
    assert_eq!(short.height(), 2);
}

#[test]
fn a_new_cache_holds_nothing() {
    let cache = TextureCache::new();
    assert_eq!(cache.len(), 0);
    assert_eq!(cache.lookup(TextureId::Managed(0)), None);
    assert_eq!(cache.record(TextureId::Managed(0)), None);
}

#[test]
fn a_whole_texture_is_created_with_its_size_and_filter() {
    let mut cache = TextureCache::new();
    let id = TextureId::Managed(3);
    let commands = cache.upsert(id, &full(color(2, 1, [9, 8, 7, 6]), TextureFilter::Nearest));
    assert_eq!(
        commands,
        vec![TextureCommand::Create {
            slot: 0,
            params: TextureParams {
                format: TextureFormat::Rgba8,
                wrap: TextureWrap::Clamp,
                min_filter: FilterMode::Nearest,
                mag_filter: FilterMode::Nearest,
                width: 2,
                height: 1,
            },
            data: vec![9, 8, 7, 6, 9, 8, 7, 6],
        }]
    );
    assert_eq!(cache.lookup(id), Some(0));
    assert_eq!(cache.record(id), Some(TextureRecord { id, width: 2, height: 1 }));
    assert_eq!(cache.len(), 1);
}

#[test]
fn a_linear_hint_gives_linear_filters() {
    let mut cache = TextureCache::new();
    let commands = cache.upsert(TextureId::User(1), &full(color(1, 1, [0; 4]), TextureFilter::Linear));
    match &commands[0] {
        TextureCommand::Create { params, .. } => {
            assert_eq!(params.min_filter, FilterMode::Linear);
            assert_eq!(params.mag_filter, FilterMode::Linear);
            assert_eq!(params.wrap, TextureWrap::Clamp);
            assert_eq!(params.format, TextureFormat::Rgba8);
        }
        other => panic!("expected a creation, got {other:?}"),
    }
}

#[test]
fn a_font_texture_is_uploaded_as_rgba() {
    let mut cache = TextureCache::new();
    let image = ImageData::Font(FontImage { width: 2, height: 1, pixels: vec![10, 200] });
    let commands = cache.upsert(TextureId::Managed(0), &full(image, TextureFilter::Linear));
    match &commands[0] {
        TextureCommand::Create { data, params, .. } => {
            assert_eq!(data, &vec![10, 10, 10, 10, 200, 200, 200, 200]);
            assert_eq!((params.width, params.height), (2, 1));
        }
        other => panic!("expected a creation, got {other:?}"),
    }
}

#[test]
fn a_patch_updates_the_texture_in_place() {
    let mut cache = TextureCache::new();
    let id = TextureId::Managed(0);
    cache.upsert(id, &full(color(8, 8, [0; 4]), TextureFilter::Linear));
    let commands = cache.upsert(id, &patch(color(2, 1, [1, 2, 3, 4]), 3, 5));
    assert_eq!(
        commands,
        vec![TextureCommand::UpdatePart {
            slot: 0,
            x: 3,
            y: 5,
            width: 2,
            height: 1,
            data: vec![1, 2, 3, 4, 1, 2, 3, 4],
        }]
    );
    assert_eq!(cache.record(id), Some(TextureRecord { id, width: 8, height: 8 }));
    assert_eq!(cache.len(), 1);
}

#[test]
fn a_patch_for_an_unknown_texture_is_reported_and_changes_nothing() {
    let mut cache = TextureCache::new();
    cache.upsert(TextureId::Managed(1), &full(color(1, 1, [0; 4]), TextureFilter::Linear));
    let id = TextureId::Managed(2);
    let commands = cache.upsert(id, &patch(color(1, 1, [1; 4]), 0, 0));
    assert_eq!(commands, vec![TextureCommand::NotFound { id }]);
    assert_eq!(cache.lookup(id), None);
    assert_eq!(cache.len(), 1);
}

#[test]
fn a_replacement_is_created_before_the_old_texture_is_deleted() {
    let mut cache = TextureCache::new();
    let id = TextureId::Managed(0);
    cache.upsert(id, &full(color(1, 1, [0; 4]), TextureFilter::Linear));
    let commands = cache.upsert(id, &full(color(4, 2, [5; 4]), TextureFilter::Linear));
    assert_eq!(commands.len(), 2);
    assert!(matches!(commands[0], TextureCommand::Create { slot: 1, .. }));
    assert_eq!(commands[1], TextureCommand::Delete { slot: 0 });
    assert_eq!(cache.lookup(id), Some(1));
    assert_eq!(cache.record(id), Some(TextureRecord { id, width: 4, height: 2 }));
    assert_eq!(cache.len(), 1);
}

#[test]
fn a_freed_slot_is_taken_again() {
    let mut cache = TextureCache::new();
    for n in 0..3 {
        cache.upsert(TextureId::Managed(n), &full(color(1, 1, [0; 4]), TextureFilter::Linear));
    }
    assert_eq!(cache.remove(TextureId::Managed(1)), vec![TextureCommand::Delete { slot: 1 }]);
    let commands = cache.upsert(TextureId::Managed(9), &full(color(1, 1, [0; 4]), TextureFilter::Linear));
    assert!(matches!(commands[0], TextureCommand::Create { slot: 1, .. }));
    assert_eq!(cache.lookup(TextureId::Managed(0)), Some(0));
    assert_eq!(cache.lookup(TextureId::Managed(9)), Some(1));
    assert_eq!(cache.lookup(TextureId::Managed(2)), Some(2));
    assert_eq!(cache.len(), 3);
}

#[test]
fn managed_and_user_textures_of_one_number_are_different_textures() {
    let mut cache = TextureCache::new();
    cache.upsert(TextureId::Managed(4), &full(color(1, 1, [0; 4]), TextureFilter::Linear));
    assert_eq!(cache.lookup(TextureId::User(4)), None);
    cache.upsert(TextureId::User(4), &full(color(1, 1, [0; 4]), TextureFilter::Linear));
    assert_eq!(cache.lookup(TextureId::Managed(4)), Some(0));
    assert_eq!(cache.lookup(TextureId::User(4)), Some(1));
}

#[test]
fn upsert_then_remove_forgets_the_texture_and_a_second_remove_is_idle() {
    let mut cache = TextureCache::new();
    let mut backend = CountingBackend::new();
    let id = TextureId::Managed(7);
    backend.run(&cache.upsert(id, &full(color(2, 2, [1; 4]), TextureFilter::Linear)));
    let removed = cache.remove(id);
    assert_eq!(removed, vec![TextureCommand::Delete { slot: 0 }]);
    backend.run(&removed);
    assert_eq!(cache.lookup(id), None);
    assert_eq!(cache.len(), 0);
    let again = cache.remove(id);
    assert!(again.is_empty());
    backend.run(&again);
    assert_eq!(cache.lookup(id), None);
    assert_eq!(cache.len(), 0);
    assert_eq!((backend.creates, backend.destroys), (1, 1));
    assert!(backend.live.is_empty());
}

#[test]
fn removing_an_unknown_texture_does_nothing() {
    let mut cache = TextureCache::new();
    cache.upsert(TextureId::Managed(1), &full(color(1, 1, [0; 4]), TextureFilter::Linear));
    assert!(cache.remove(TextureId::Managed(2)).is_empty());
    assert_eq!(cache.len(), 1);
    assert_eq!(cache.lookup(TextureId::Managed(1)), Some(0));
}

#[test]
fn full_then_patch_then_full_keeps_exactly_one_texture_alive() {
    let mut cache = TextureCache::new();
    let mut backend = CountingBackend::new();
    let id = TextureId::Managed(0);

    backend.run(&cache.upsert(id, &full(color(4, 4, [0; 4]), TextureFilter::Linear)));
    assert_eq!(backend.creates - backend.destroys, 1);
    assert_eq!(cache.len(), 1);
    assert!(cache.lookup(id).is_some());

    backend.run(&cache.upsert(id, &patch(color(2, 2, [9; 4]), 1, 2)));
    assert_eq!((backend.creates, backend.destroys, backend.updates), (1, 0, 1));
    assert_eq!(cache.len(), 1);
    assert!(cache.lookup(id).is_some());

    backend.run(&cache.upsert(id, &full(color(8, 8, [0; 4]), TextureFilter::Linear)));
    assert_eq!((backend.creates, backend.destroys), (2, 1));
    assert_eq!(backend.creates - backend.destroys, 1);
    assert_eq!(cache.len(), 1);
    assert_eq!(backend.live, vec![cache.lookup(id).unwrap()]);
}

#[test]
fn live_textures_on_the_backend_are_those_in_the_cache() {
    let mut cache = TextureCache::new();
    let mut backend = CountingBackend::new();
    for round in 0..5u64 {
        for n in 0..4u64 {
            let id = TextureId::Managed(n);
            backend.run(&cache.upsert(id, &full(color(1, 1, [0; 4]), TextureFilter::Nearest)));
            if (n + round) % 3 == 0 {
                backend.run(&cache.remove(id));
            }
            assert_eq!(backend.creates - backend.destroys, cache.len());
            assert_eq!(backend.live.len(), cache.len());
        }
    }
}
