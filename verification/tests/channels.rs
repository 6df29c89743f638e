//! Which of an interface's channels are heard.

use jamodio::channels::{
    effective_selection, extract_channel_mono, remap_to_stereo, ChannelSel,
};

// Three channels, two frames: [10, 20, 30] and [11, 21, 31].
fn block_3ch() -> Vec<f32> {
    vec![10.0, 20.0, 30.0, 11.0, 21.0, 31.0]
}

#[test]
fn mono_duplique_le_canal_sur_l_et_r() {
    let out = remap_to_stereo(&block_3ch(), 3, ChannelSel::Mono(1));
    assert_eq!(out, vec![20.0, 20.0, 21.0, 21.0]);
}

#[test]
fn stereo_pair_mappe_n_et_n_plus_1() {
    let out = remap_to_stereo(&block_3ch(), 3, ChannelSel::StereoPair(1));
    assert_eq!(out, vec![20.0, 30.0, 21.0, 31.0]);
}

#[test]
fn default_prend_les_deux_premiers() {
    let out = remap_to_stereo(&block_3ch(), 3, ChannelSel::Default);
    assert_eq!(out, vec![10.0, 20.0, 11.0, 21.0]);
}

#[test]
fn default_mono_source_centre() {
    let out = remap_to_stereo(&[5.0, 6.0], 1, ChannelSel::Default);
    assert_eq!(out, vec![5.0, 5.0, 6.0, 6.0]);
}

#[test]
fn indices_hors_plage_retombent_sur_default() {
    let out = remap_to_stereo(&block_3ch(), 3, ChannelSel::StereoPair(2));
    assert_eq!(out, vec![10.0, 20.0, 11.0, 21.0]);
    let out2 = remap_to_stereo(&block_3ch(), 3, ChannelSel::Mono(5));
    assert_eq!(out2, vec![10.0, 20.0, 11.0, 21.0]);
}

#[test]
fn extract_mono_prend_le_bon_canal() {
    assert_eq!(extract_channel_mono(&block_3ch(), 3, 2), vec![30.0, 31.0]);
    assert_eq!(extract_channel_mono(&block_3ch(), 3, 0), vec![10.0, 11.0]);
}

#[test]
fn extract_mono_canal_instrument_et_voix_independants() {
    let instr = extract_channel_mono(&block_3ch(), 3, 0);
    let voice = extract_channel_mono(&block_3ch(), 3, 2);
    assert_eq!(instr, vec![10.0, 11.0]);
    assert_eq!(voice, vec![30.0, 31.0]);
}

#[test]
fn extract_mono_hors_plage_ou_vide_ne_panique_pas() {
    assert!(extract_channel_mono(&block_3ch(), 3, 3).is_empty());
    assert!(extract_channel_mono(&block_3ch(), 0, 0).is_empty());
    assert!(extract_channel_mono::<f32>(&[], 4, 1).is_empty());
}

#[test]
fn a_rest_of_a_frame_is_left_out() {
    assert_eq!(remap_to_stereo(&[1, 2, 3, 4, 5], 2, ChannelSel::Default), vec![1, 2, 3, 4]);
    assert_eq!(extract_channel_mono(&[1, 2, 3, 4, 5], 2, 1), vec![2, 4]);
    assert!(remap_to_stereo(&[1, 2], 0, ChannelSel::Default).is_empty());
}

#[test]
fn a_selection_must_fit_the_interface() {
    assert_eq!(effective_selection(Some(3), Some(0), 4), ChannelSel::Mono(3));
    assert_eq!(effective_selection(Some(4), Some(0), 4), ChannelSel::Default);
    assert_eq!(effective_selection(None, Some(2), 4), ChannelSel::StereoPair(2));
    assert_eq!(effective_selection(None, Some(3), 4), ChannelSel::Default);
    assert_eq!(effective_selection(None, None, 4), ChannelSel::Default);
    assert_eq!(effective_selection(None, Some(255), 256), ChannelSel::Default);
}

#[test]
fn mono_is_the_channel_on_both_sides() {
    let mono = extract_channel_mono(&block_3ch(), 3, 1);
    let both = remap_to_stereo(&block_3ch(), 3, ChannelSel::Mono(1));
    for (f, s) in mono.iter().enumerate() {
        assert_eq!(both[2 * f], *s);
        assert_eq!(both[2 * f + 1], *s);
    }
}
