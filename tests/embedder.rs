use candle_core::{DType, Device, Tensor};
use candle_nn::VarBuilder;
use candle_transformers::models::clip::text_model::{Activation, ClipTextConfig};
use candle_transformers::models::clip::vision_model::ClipVisionConfig;
use candle_transformers::models::clip::{ClipConfig, ClipModel};
use clipper::device::{get_device, DeviceKind, SelectedDevice};
use clipper::embedder::{ClipEmbedder, ModelConfig};
use clipper::error::ClipError;
use clipper::preprocess::ImageSource;
use clipper::tokenize::get_tokenizer;
use image::{DynamicImage, ImageFormat, Rgb, RgbImage};

const TOKENIZER_JSON: &str = r#"{
  "version": "1.0", "truncation": null, "padding": null, "added_tokens": [],
  "normalizer": null, "pre_tokenizer": {"type": "Whitespace"},
  "post_processor": {
    "type": "TemplateProcessing",
    "single": [{"SpecialToken": {"id": "<s>", "type_id": 0}}, {"Sequence": {"id": "A", "type_id": 0}}, {"SpecialToken": {"id": "</s>", "type_id": 0}}],
    "pair": [{"Sequence": {"id": "A", "type_id": 0}}, {"Sequence": {"id": "B", "type_id": 1}}],
    "special_tokens": {
      "<s>": {"id": "<s>", "ids": [0], "tokens": ["<s>"]},
      "</s>": {"id": "</s>", "ids": [9], "tokens": ["</s>"]}
    }
  },
  "decoder": null,
  "model": {"type": "WordLevel", "vocab": {"<s>": 0, "a": 1, "cat": 2, "bicycle": 3, "[UNK]": 4, "</s>": 9, "dog": 12}, "unk_token": "[UNK]"}
}"#;

fn tiny_clip_config(text_projection: usize) -> ClipConfig {
    ClipConfig {
        text_config: ClipTextConfig {
            vocab_size: 10,
            embed_dim: 8,
            activation: Activation::QuickGelu,
            intermediate_size: 16,
            max_position_embeddings: 16,
            pad_with: None,
            num_hidden_layers: 1,
            num_attention_heads: 2,
            projection_dim: text_projection,
        },
        vision_config: ClipVisionConfig {
            embed_dim: 8,
            activation: Activation::QuickGelu,
            intermediate_size: 16,
            num_hidden_layers: 1,
            num_attention_heads: 2,
            projection_dim: 4,
            num_channels: 3,
            image_size: 32,
            patch_size: 16,
        },
        logit_scale_init_value: 2.6592,
        image_size: 32,
    }
}

fn tiny_config(text_projection: usize) -> ModelConfig {
    ModelConfig::from_clip_config(tiny_clip_config(text_projection))
}

fn tiny_embedder() -> ClipEmbedder {
    let config = tiny_config(4);
    let vb = VarBuilder::zeros(DType::F32, &Device::Cpu);
    let model = ClipModel::new(vb, config.clip_config()).unwrap();
    let tokenizer = get_tokenizer(TOKENIZER_JSON.as_bytes().to_vec()).unwrap();
    ClipEmbedder::new(model, tokenizer, config, get_device(true)).unwrap()
}

fn normalized(pixels: &Tensor) -> Tensor {
    pixels.to_dtype(DType::F32).unwrap().affine(2. / 255., -1.).unwrap()
}

fn picture(width: u32, height: u32) -> DynamicImage {
    DynamicImage::ImageRgb8(RgbImage::from_fn(width, height, |x, y| {
        Rgb([(x * 5 % 256) as u8, (y * 3 % 256) as u8, 200])
    }))
}

fn png(img: &DynamicImage) -> Vec<u8> {
    let mut out = std::io::Cursor::new(Vec::new());
    img.write_to(&mut out, ImageFormat::Png).unwrap();
    out.into_inner()
}

#[test]
fn embedder_reports_its_configuration() {
    let em = tiny_embedder();
    assert_eq!(em.image_size(), 32);
    assert_eq!(em.embedding_len(), 4);
    assert_eq!(em.device_kind(), DeviceKind::Cpu);
    assert_eq!(em.config().image_size, 32);
}

#[test]
fn mismatched_projections_are_refused() {
    let config = tiny_config(6);
    let vb = VarBuilder::zeros(DType::F32, &Device::Cpu);
    let model = ClipModel::new(vb, config.clip_config()).unwrap();
    let tokenizer = get_tokenizer(TOKENIZER_JSON.as_bytes().to_vec()).unwrap();
    let r = ClipEmbedder::new(model, tokenizer, config, get_device(true));
    assert!(matches!(r, Err(ClipError::Construction(_))));
}

#[test]
fn zero_image_size_is_refused() {
    let mut clip = tiny_clip_config(4);
    clip.image_size = 0;
    let config = ModelConfig::from_clip_config(clip);
    assert_eq!(config.image_size(), 0);
    let vb = VarBuilder::zeros(DType::F32, &Device::Cpu);
    let model = ClipModel::new(vb, config.clip_config()).unwrap();
    let tokenizer = get_tokenizer(TOKENIZER_JSON.as_bytes().to_vec()).unwrap();
    let r = ClipEmbedder::new(model, tokenizer, config, get_device(true));
    assert!(matches!(r, Err(ClipError::Construction(_))));
}

#[test]
fn canonical_image_at_model_size() {
    let em = tiny_embedder();
    let t = em.load_image_from_decoded(&picture(70, 20)).unwrap();
    assert_eq!(t.dims(), &[3, 32, 32]);
    let t = em.load_image_from_bytes(&png(&picture(20, 70))).unwrap();
    assert_eq!(t.dims(), &[3, 32, 32]);
}

#[test]
fn all_embeddings_have_the_configured_length() {
    let em = tiny_embedder();
    let img = picture(48, 33);
    let from_decoded = em.image_features(&normalized(&em.load_image_from_decoded(&img).unwrap())).unwrap();
    let from_bytes = em.image_features(&normalized(&em.load_image_from_bytes(&png(&img)).unwrap())).unwrap();
    let text = em.text_features("a cat").unwrap();
    for e in [&from_decoded, &from_bytes, &text] {
        assert_eq!(e.len, 4);
        assert_eq!(e.features.dims(), &[4]);
    }
}

#[test]
fn image_paths_give_the_same_embedding() {
    let em = tiny_embedder();
    let img = picture(61, 29);
    let a = em.image_features(&normalized(&em.load_image_from_decoded(&img).unwrap())).unwrap();
    let b = em.image_features(&normalized(&em.load_image_from_bytes(&png(&img)).unwrap())).unwrap();
    let a = a.features.to_vec1::<f32>().unwrap();
    let b = b.features.to_vec1::<f32>().unwrap();
    let l1: f32 = a.iter().zip(&b).map(|(x, y)| (x - y).abs()).sum();
    assert!(l1 < 1e-5);
}

#[test]
fn text_is_tokenized_with_boundaries() {
    let em = tiny_embedder();
    assert_eq!(em.tokenize("a cat").unwrap(), vec![0, 1, 2, 9]);
}

#[test]
fn failed_request_leaves_embedder_usable() {
    let em = tiny_embedder();
    let e = em.load_image_from_bytes(b"not an image").unwrap_err();
    assert!(matches!(e, ClipError::Decode(_)));
    let t = em.load_image_from_bytes(&png(&picture(10, 10))).unwrap();
    assert_eq!(em.image_features(&normalized(&t)).unwrap().len, 4);
    assert_eq!(em.text_features("a bicycle").unwrap().len, 4);
}

#[test]
fn unnormalized_pixels_are_a_compute_error() {
    let em = tiny_embedder();
    let wrong = Tensor::zeros((3, 8, 8), DType::F32, &Device::Cpu).unwrap();
    assert!(matches!(em.image_features(&wrong), Err(ClipError::Compute(_))));
}

#[test]
fn raw_pixels_without_normalization_are_a_compute_error() {
    let em = tiny_embedder();
    let t = em.load_image_from_decoded(&picture(32, 32)).unwrap();
    let r = em.image_features(&t);
    assert!(matches!(r, Err(ClipError::Compute(_))));
}

#[test]
fn token_beyond_model_vocabulary_is_a_compute_error() {
    let em = tiny_embedder();
    assert!(matches!(em.text_features("dog"), Err(ClipError::Compute(_))));
}

#[test]
fn text_longer_than_positions_is_a_compute_error() {
    let em = tiny_embedder();
    let long = vec!["cat"; 40].join(" ");
    assert!(matches!(em.text_features(&long), Err(ClipError::Compute(_))));
}

#[test]
fn image_source_forms_agree() {
    let em = tiny_embedder();
    let img = picture(45, 30);
    let bytes = png(&img);
    let a = em.load_image(ImageSource::Decoded(&img)).unwrap();
    let b = em.load_image(ImageSource::Encoded(&bytes)).unwrap();
    assert_eq!(a.dims(), &[3, 32, 32]);
    assert_eq!(a.to_vec3::<u8>().unwrap(), b.to_vec3::<u8>().unwrap());
    assert!(matches!(em.load_image(ImageSource::Encoded(&[])), Err(ClipError::Decode(_))));
}

#[test]
fn device_of_another_kind_is_refused() {
    let config = tiny_config(4);
    let vb = VarBuilder::zeros(DType::F32, &Device::Cpu);
    let model = ClipModel::new(vb, config.clip_config()).unwrap();
    let tokenizer = get_tokenizer(TOKENIZER_JSON.as_bytes().to_vec()).unwrap();
    let device = SelectedDevice { kind: DeviceKind::Cuda, device: Device::Cpu };
    assert!(!device.is_consistent());
    let r = ClipEmbedder::new(model, tokenizer, config, device);
    assert!(matches!(r, Err(ClipError::Construction(_))));
}

const PLAIN_TOKENIZER_JSON: &str = r#"{
  "version": "1.0", "truncation": null, "padding": null, "added_tokens": [],
  "normalizer": null, "pre_tokenizer": {"type": "Whitespace"}, "post_processor": null,
  "decoder": null,
  "model": {"type": "WordLevel", "vocab": {"a": 1, "cat": 2, "[UNK]": 4}, "unk_token": "[UNK]"}
}"#;

#[test]
fn empty_token_sequence_is_refused() {
    let config = tiny_config(4);
    let vb = VarBuilder::zeros(DType::F32, &Device::Cpu);
    let model = ClipModel::new(vb, config.clip_config()).unwrap();
    let tokenizer = get_tokenizer(PLAIN_TOKENIZER_JSON.as_bytes().to_vec()).unwrap();
    let em = ClipEmbedder::new(model, tokenizer, config, get_device(true)).unwrap();
    assert_eq!(em.tokenize("").unwrap(), Vec::<u32>::new());
    assert!(matches!(em.text_features(""), Err(ClipError::Compute(_))));
    assert_eq!(em.text_features("a cat").unwrap().len, 4);
}

fn bpe_tokenizer_json(dropout: &str) -> String {
    format!(
        r#"{{
  "version": "1.0", "truncation": null, "padding": null, "added_tokens": [],
  "normalizer": null, "pre_tokenizer": {{"type": "Whitespace"}}, "post_processor": null,
  "decoder": null,
  "model": {{"type": "BPE", "dropout": {}, "unk_token": null, "continuing_subword_prefix": null,
    "end_of_word_suffix": null, "fuse_unk": false, "byte_fallback": false, "ignore_merges": false,
    "vocab": {{"a": 0, "b": 1, "ab": 2}}, "merges": ["a b"]}}
}}"#,
        dropout
    )
}

#[test]
fn tokenizer_with_dropout_is_refused() {
    let plain = get_tokenizer(bpe_tokenizer_json("null").into_bytes());
    let tok = match plain {
        Ok(t) => t,
        Err(e) => panic!("{:?}", e),
    };
    assert_eq!(clipper::tokenize::tokenize(&tok, "ab a").unwrap(), vec![2, 0]);
    match get_tokenizer(bpe_tokenizer_json("0.5").into_bytes()) {
        Err(e) => assert!(matches!(e, ClipError::Construction(_))),
        Ok(_) => panic!("a tokenizer with dropout was accepted"),
    }
}

#[test]
fn image_side_below_patch_is_refused() {
    let mut clip = tiny_clip_config(4);
    clip.image_size = 8;
    clip.vision_config.image_size = 8;
    let config = ModelConfig::from_clip_config(clip);
    let vb = VarBuilder::zeros(DType::F32, &Device::Cpu);
    let model = ClipModel::new(vb, config.clip_config()).unwrap();
    let tokenizer = get_tokenizer(TOKENIZER_JSON.as_bytes().to_vec()).unwrap();
    let r = ClipEmbedder::new(model, tokenizer, config, get_device(true));
    assert!(matches!(r, Err(ClipError::Construction(_))));
}

#[test]
fn image_batch_adds_one_axis() {
    let em = tiny_embedder();
    let t = em.load_image_from_decoded(&picture(40, 40)).unwrap();
    assert_eq!(em.image_batch(&t).unwrap().dims(), &[1, 3, 32, 32]);
}

#[test]
fn ids_batch_is_one_row_of_the_ids() {
    let em = tiny_embedder();
    let t = em.ids_batch(vec![0, 1, 2, 9]).unwrap();
    assert_eq!(t.dims(), &[1, 4]);
    assert_eq!(t.to_vec2::<u32>().unwrap(), vec![vec![0, 1, 2, 9]]);
    assert!(matches!(em.ids_batch(vec![]), Err(ClipError::Compute(_))));
}
