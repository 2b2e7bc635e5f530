//! The embedder: a CLIP model, its tokenizer and the device they run on.
use vstd::prelude::*;

use candle_core::{Device, Tensor};
use candle_transformers::models::clip::{ClipConfig, ClipModel};
use image::DynamicImage;

use crate::device::{DeviceKind, SelectedDevice};
use crate::error::{compute_error, ClipError};
use crate::preprocess::{
    decoded_image, image_dims, load_image, load_image_from_bytes, load_image_from_decoded, loads,
    fillable, shape3, tensor_dims, tensor_shape, ImageSource, CHANNELS,
};
use crate::tokenize::{encoding_of, single_row_batch, tokenize, ClipTokenizer};

verus! {

#[verifier::external_type_specification]
#[verifier::external_body]
pub struct ExClipModel(ClipModel);

#[verifier::external_type_specification]
#[verifier::external_body]
pub struct ExClipConfig(ClipConfig);

/// A model configuration with the figures the pipeline reads from it.
pub struct ModelConfig {
    config: ClipConfig,
    image_size: usize,
    vision_image_size: usize,
    patch_size: usize,
    num_channels: usize,
    vision_projection_dim: usize,
    text_projection_dim: usize,
}

/// The shape of a tensor with two axes.
pub open spec fn shape2(a: usize, b: usize) -> Seq<usize> {
    seq![a, b]
}

/// The samples of a `u32` tensor in row-major order of its axes.
pub uninterp spec fn u32_values(t: Tensor) -> Seq<u32>;

/// Relies on `ClipConfig::vit_base_patch32`, whose source sets an image size
/// of 224 (also on the vision encoder), patches of 32 over 3 channels, and
/// projections of 512 on both encoders.
#[verifier::external_body]
fn clip_vit_base_patch32() -> (r: ModelConfig)
    ensures
        r.image_size == 224,
        r.vision_image_size == 224,
        r.patch_size == 32,
        r.num_channels == 3,
        r.vision_projection_dim == 512,
        r.text_projection_dim == 512,
{
    let config = ClipConfig::vit_base_patch32();
    ModelConfig {
        image_size: config.image_size,
        vision_image_size: config.vision_config.image_size,
        patch_size: config.vision_config.patch_size,
        num_channels: config.vision_config.num_channels,
        vision_projection_dim: config.vision_config.projection_dim,
        text_projection_dim: config.text_config.projection_dim,
        config,
    }
}

/// Reads the figures of a `ClipConfig` (its field `image_size`, and
/// `image_size`, `patch_size`, `num_channels` and `projection_dim` of its
/// vision configuration, `projection_dim` of its text configuration);
/// nothing is promised of them.
#[verifier::external_body]
fn describe_config(config: ClipConfig) -> (r: ModelConfig) {
    ModelConfig {
        image_size: config.image_size,
        vision_image_size: config.vision_config.image_size,
        patch_size: config.vision_config.patch_size,
        num_channels: config.vision_config.num_channels,
        vision_projection_dim: config.vision_config.projection_dim,
        text_projection_dim: config.text_config.projection_dim,
        config,
    }
}

/// Relies on `Tensor::unsqueeze` at axis 0: a batch axis of one in front,
/// which any tensor accepts.
#[verifier::external_body]
fn add_batch_axis(t: &Tensor) -> (r: Result<Tensor, candle_core::Error>)
    ensures
        r is Ok,
        r matches Ok(b) ==> tensor_shape(b) == seq![1usize] + tensor_shape(*t),
{
    t.unsqueeze(0)
}

/// Relies on `Tensor::squeeze`: drops the batch axis of one.
#[verifier::external_body]
fn drop_batch_axis(t: &Tensor) -> (r: Result<Tensor, candle_core::Error>) {
    t.squeeze(0)
}

/// Relies on `Tensor::to_device`: the layout, and so the shape, is kept.
#[verifier::external_body]
fn move_to(t: &Tensor, device: &Device) -> (r: Result<Tensor, candle_core::Error>)
    ensures
        r matches Ok(m) ==> tensor_shape(m) == tensor_shape(*t),
{
    t.to_device(device)
}

/// Relies on `Tensor::new` on a two-dimensional array of token ids: one row
/// gives the shape (1, row length), holding the row.
#[verifier::external_body]
fn ids_tensor(rows: Vec<Vec<u32>>, device: &Device) -> (r: Result<Tensor, candle_core::Error>)
    requires
        rows@.len() == 1,
    ensures
        r matches Ok(t) ==> tensor_shape(t) == shape2(1, rows@[0]@.len() as usize),
        r matches Ok(t) ==> u32_values(t) == rows@[0]@,
{
    Tensor::new(rows, device)
}

/// Relies on `ClipModel::get_image_features`: the vision encoder and its
/// projection, on a batch of pixel tensors. The embedder's model was built
/// from its configuration; the convolution over patches takes images of the
/// configured side and channels, no smaller than a patch.
#[verifier::external_body]
fn model_image_features(em: &ClipEmbedder, pixels: &Tensor) -> (r: Result<
    Tensor,
    candle_core::Error,
>)
    requires
        em.config.num_channels == CHANNELS,
        em.config.image_size == em.config.vision_image_size,
        0 < em.config.patch_size <= em.config.image_size,
        tensor_shape(*pixels) == seq![1usize] + shape3(
            CHANNELS,
            em.config.image_size,
            em.config.image_size,
        ),
{
    em.model.get_image_features(pixels)
}

/// Relies on `ClipModel::get_text_features`: the text encoder and its
/// projection, on a batch of one non-empty row of token ids.
#[verifier::external_body]
fn model_text_features(em: &ClipEmbedder, input_ids: &Tensor) -> (r: Result<
    Tensor,
    candle_core::Error,
>)
    requires
        tensor_shape(*input_ids).len() == 2,
        tensor_shape(*input_ids)[0] == 1,
        tensor_shape(*input_ids)[1] >= 1,
{
    em.model.get_text_features(input_ids)
}

impl ModelConfig {
    /// Side of the square images the vision encoder takes.
    pub closed spec fn spec_image_size(&self) -> usize {
        self.image_size
    }

    /// Side of the images the vision encoder was built for.
    pub closed spec fn spec_vision_image_size(&self) -> usize {
        self.vision_image_size
    }

    /// Side of the vision encoder's patches.
    pub closed spec fn spec_patch_size(&self) -> usize {
        self.patch_size
    }

    /// Channels of the vision encoder's input.
    pub closed spec fn spec_num_channels(&self) -> usize {
        self.num_channels
    }

    /// The CLIP model configuration.
    pub closed spec fn spec_clip_config(&self) -> ClipConfig {
        self.config
    }

    /// Length of the image embeddings.
    pub closed spec fn spec_vision_projection_dim(&self) -> usize {
        self.vision_projection_dim
    }

    /// Length of the text embeddings.
    pub closed spec fn spec_text_projection_dim(&self) -> usize {
        self.text_projection_dim
    }

    /// The configuration of the ViT-B/32 CLIP model.
    pub fn vit_base_patch32() -> (r: ModelConfig)
        ensures
            r.spec_image_size() == 224,
            r.spec_vision_image_size() == 224,
            r.spec_patch_size() == 32,
            r.spec_num_channels() == 3,
            r.spec_vision_projection_dim() == 512,
            r.spec_text_projection_dim() == 512,
    {
        clip_vit_base_patch32()
    }

    /// A configuration with the figures of a CLIP model configuration.
    pub fn from_clip_config(config: ClipConfig) -> (r: ModelConfig) {
        describe_config(config)
    }

    /// Side of the square images the vision encoder takes.
    pub fn image_size(&self) -> (r: usize)
        ensures
            r == self.spec_image_size(),
    {
        self.image_size
    }

    /// Length of the image embeddings.
    pub fn vision_projection_dim(&self) -> (r: usize)
        ensures
            r == self.spec_vision_projection_dim(),
    {
        self.vision_projection_dim
    }

    /// Length of the text embeddings.
    pub fn text_projection_dim(&self) -> (r: usize)
        ensures
            r == self.spec_text_projection_dim(),
    {
        self.text_projection_dim
    }

    /// The CLIP model configuration.
    pub fn clip_config(&self) -> (r: &ClipConfig)
        ensures
            r == self.spec_clip_config(),
    {
        &self.config
    }
}

/// An embedding: a flat tensor of `len` values, on the embedder's device.
pub struct Embedding {
    pub features: Tensor,
    pub len: usize,
}

/// Whether tensor dimensions are those of a flat vector of `len` values.
pub fn is_embedding_shape(dims: &Vec<usize>, len: usize) -> (r: bool)
    ensures
        r == (dims@ == seq![len]),
{
    let ok = dims.len() == 1 && dims[0] == len;
    proof {
        if ok {
            assert(dims@ =~= seq![len]);
        }
    }
    ok
}

/// Takes a tensor as an embedding exactly when it is flat and of the expected
/// length.
pub fn as_embedding(features: Tensor, expected_len: usize) -> (r: Result<Embedding, ClipError>)
    ensures
        r is Ok <==> tensor_shape(features) == seq![expected_len],
        r matches Ok(e) ==> e.len == expected_len && e.features == features,
        r matches Err(e) ==> e is Compute,
{
    let dims = tensor_dims(&features);
    if !is_embedding_shape(&dims, expected_len) {
        return Err(ClipError::Compute("the model returned an embedding of an unexpected shape".to_string()));
    }
    Ok(Embedding { features, len: expected_len })
}

/// The outcome of a tensor operation: its tensor, or its failure as a
/// `Compute` error.
pub fn compute_result(r: Result<Tensor, candle_core::Error>) -> (out: Result<Tensor, ClipError>)
    ensures
        r matches Ok(t) ==> out == Ok::<Tensor, ClipError>(t),
        r is Err ==> (out matches Err(e) && e is Compute),
{
    match r {
        Ok(t) => Ok(t),
        Err(e) => Err(compute_error(&e)),
    }
}

/// Whether tensor dimensions are those of a canonical image of side `size`:
/// (3, size, size).
pub fn is_canonical_shape(dims: &Vec<usize>, size: usize) -> (r: bool)
    ensures
        r == (dims@ == shape3(CHANNELS, size, size)),
{
    let ok = dims.len() == 3 && dims[0] == CHANNELS && dims[1] == size && dims[2] == size;
    proof {
        if ok {
            assert(dims@ =~= shape3(CHANNELS, size, size));
        }
    }
    ok
}

/// A loaded CLIP model with its tokenizer, ready to embed images and texts.
/// Nothing in it changes after construction.
pub struct ClipEmbedder {
    model: ClipModel,
    tokenizer: ClipTokenizer,
    config: ModelConfig,
    device: SelectedDevice,
}

impl ClipEmbedder {
    #[verifier::type_invariant]
    spec fn inv(&self) -> bool {
        &&& 0 < self.config.image_size <= u32::MAX
        &&& self.config.image_size == self.config.vision_image_size
        &&& 0 < self.config.patch_size <= self.config.image_size
        &&& self.config.num_channels == CHANNELS
        &&& self.config.vision_projection_dim == self.config.text_projection_dim
        &&& self.device.wf()
    }

    /// Side of the square canonical image.
    pub closed spec fn spec_image_size(&self) -> usize {
        self.config.image_size
    }

    /// Length of the embeddings, shared by images and texts.
    pub closed spec fn spec_embedding_len(&self) -> usize {
        self.config.vision_projection_dim
    }

    /// The kind of device the model runs on.
    pub closed spec fn spec_device_kind(&self) -> DeviceKind {
        self.device.kind
    }

    /// The CLIP model configuration.
    pub closed spec fn spec_clip_config(&self) -> ClipConfig {
        self.config.config
    }

    /// The definition of the tokenizer.
    pub closed spec fn spec_tokenizer_definition(&self) -> Seq<u8> {
        self.tokenizer.definition()
    }

    /// Puts together a model, its tokenizer, the configuration it was built
    /// from and the device it was loaded on. A configuration whose image size
    /// is zero or beyond `u32`, differs from its vision encoder's, is smaller
    /// than a patch, or is not over 3 channels, or whose image and text
    /// projections differ in length (they would not share one embedding
    /// space), is refused, as is a device that is not of its recorded kind.
    pub fn new(
        model: ClipModel,
        tokenizer: ClipTokenizer,
        config: ModelConfig,
        device: SelectedDevice,
    ) -> (r: Result<ClipEmbedder, ClipError>)
        ensures
            r is Ok <==> {
                &&& 0 < config.spec_image_size() <= u32::MAX
                &&& config.spec_image_size() == config.spec_vision_image_size()
                &&& 0 < config.spec_patch_size() <= config.spec_image_size()
                &&& config.spec_num_channels() == CHANNELS
                &&& config.spec_vision_projection_dim() == config.spec_text_projection_dim()
                &&& device.wf()
            },
            r matches Err(e) ==> e is Construction,
            r matches Ok(em) ==> {
                &&& em.spec_image_size() == config.spec_image_size()
                &&& em.spec_embedding_len() == config.spec_vision_projection_dim()
                &&& em.spec_device_kind() == device.kind
                &&& em.spec_tokenizer_definition() == tokenizer.definition()
            },
    {
        if config.image_size == 0 || config.image_size > u32::MAX as usize {
            return Err(ClipError::Construction("the image size must be positive and fit in u32".to_string()));
        }
        if config.image_size != config.vision_image_size || config.patch_size == 0
            || config.patch_size > config.image_size || config.num_channels != CHANNELS {
            return Err(ClipError::Construction("the image size does not suit the vision encoder".to_string()));
        }
        if config.vision_projection_dim != config.text_projection_dim {
            return Err(ClipError::Construction("the image and text projections differ in length".to_string()));
        }
        if !device.is_consistent() {
            return Err(ClipError::Construction("the device is not of its recorded kind".to_string()));
        }
        Ok(ClipEmbedder { model, tokenizer, config, device })
    }

    /// Side of the square canonical image.
    pub fn image_size(&self) -> (r: usize)
        ensures
            r == self.spec_image_size(),
            0 < r <= u32::MAX,
    {
        proof {
            use_type_invariant(self);
        }
        self.config.image_size
    }

    /// Length of the embeddings, shared by images and texts.
    pub fn embedding_len(&self) -> (r: usize)
        ensures
            r == self.spec_embedding_len(),
    {
        self.config.vision_projection_dim
    }

    /// The kind of device the model runs on.
    pub fn device_kind(&self) -> (r: DeviceKind)
        ensures
            r == self.spec_device_kind(),
    {
        self.device.kind
    }

    /// The model configuration.
    pub fn config(&self) -> (r: &ClipConfig)
        ensures
            r == self.spec_clip_config(),
    {
        self.config.clip_config()
    }

    /// The canonical pixel tensor of an image in either form, at this
    /// model's image size.
    pub fn load_image(&self, source: ImageSource) -> (r: Result<Tensor, ClipError>)
        ensures
            r is Ok <==> loads(source, self.spec_image_size() as u32),
            r matches Ok(t) ==> tensor_shape(t) == shape3(
                CHANNELS,
                self.spec_image_size(),
                self.spec_image_size(),
            ),
            r matches Err(e) ==> e is Decode,
    {
        proof {
            use_type_invariant(self);
        }
        load_image(source, self.config.image_size as u32)
    }

    /// The canonical pixel tensor of a decoded image, at this model's image
    /// size.
    pub fn load_image_from_decoded(&self, img: &DynamicImage) -> (r: Result<Tensor, ClipError>)
        ensures
            r is Ok <==> fillable(image_dims(*img), self.spec_image_size() as u32),
            r matches Ok(t) ==> tensor_shape(t) == shape3(
                CHANNELS,
                self.spec_image_size(),
                self.spec_image_size(),
            ),
            r matches Err(e) ==> e is Decode,
    {
        proof {
            use_type_invariant(self);
        }
        load_image_from_decoded(img, self.config.image_size as u32)
    }

    /// The canonical pixel tensor of an encoded image, at this model's image
    /// size. Bytes that do not decode are a `Decode` error.
    pub fn load_image_from_bytes(&self, bytes: &[u8]) -> (r: Result<Tensor, ClipError>)
        ensures
            r is Ok <==> loads(ImageSource::Encoded(bytes), self.spec_image_size() as u32),
            r matches Ok(t) ==> tensor_shape(t) == shape3(
                CHANNELS,
                self.spec_image_size(),
                self.spec_image_size(),
            ),
            r matches Err(e) ==> e is Decode,
            decoded_image(bytes@) is None ==> r is Err,
    {
        proof {
            use_type_invariant(self);
        }
        load_image_from_bytes(bytes, self.config.image_size as u32)
    }

    /// The pixels as the model takes them: batched as one and moved to the
    /// embedder's device.
    pub fn image_batch(&self, pixels: &Tensor) -> (r: Result<Tensor, ClipError>)
        ensures
            r matches Ok(b) ==> tensor_shape(b) == seq![1usize] + tensor_shape(*pixels),
            r matches Err(e) ==> e is Compute,
    {
        let batch = compute_result(add_batch_axis(pixels))?;
        compute_result(move_to(&batch, &self.device.device))
    }

    /// The embedding of a normalized pixel tensor of shape (channel, height,
    /// width): batched as one, moved to the device, run through the vision
    /// encoder and projection, and unbatched. A tensor of another shape than
    /// the canonical (3, image size, image size) is refused before it reaches
    /// the model; a failure of the model or the device is a `Compute` error.
    pub fn image_features(&self, pixels: &Tensor) -> (r: Result<Embedding, ClipError>)
        ensures
            tensor_shape(*pixels) != shape3(CHANNELS, self.spec_image_size(), self.spec_image_size())
                ==> (r matches Err(e) && e is Compute),
            r matches Ok(e) ==> e.len == self.spec_embedding_len(),
            r matches Ok(e) ==> tensor_shape(e.features) == seq![self.spec_embedding_len()],
            r matches Err(e) ==> e is Compute,
    {
        proof {
            use_type_invariant(self);
        }
        let dims = tensor_dims(pixels);
        if !is_canonical_shape(&dims, self.config.image_size) {
            return Err(ClipError::Compute("the pixel tensor is not of the canonical shape".to_string()));
        }
        let batch = self.image_batch(pixels)?;
        let features = compute_result(model_image_features(self, &batch))?;
        let flat = compute_result(drop_batch_axis(&features))?;
        as_embedding(flat, self.config.vision_projection_dim)
    }

    /// Token ids as the model takes them: one row on the embedder's device.
    /// An empty sequence, which the model cannot pool, is a `Compute` error.
    pub fn ids_batch(&self, ids: Vec<u32>) -> (r: Result<Tensor, ClipError>)
        ensures
            ids@.len() == 0 ==> r is Err,
            r matches Ok(t) ==> tensor_shape(t) == shape2(1, ids@.len() as usize),
            r matches Ok(t) ==> u32_values(t) == ids@,
            r matches Err(e) ==> e is Compute,
    {
        if ids.len() == 0 {
            return Err(ClipError::Compute("the text gave no tokens".to_string()));
        }
        compute_result(ids_tensor(single_row_batch(ids), &self.device.device))
    }

    /// The token ids of a text under this embedder's tokenizer, special
    /// boundary tokens included.
    pub fn tokenize(&self, text: &str) -> (r: Result<Vec<u32>, ClipError>)
        ensures
            r is Ok <==> encoding_of(self.spec_tokenizer_definition(), text@, true) is Some,
            r matches Ok(ids) ==> encoding_of(self.spec_tokenizer_definition(), text@, true)
                == Some(ids@),
            r matches Err(e) ==> e is Tokenization,
    {
        tokenize(&self.tokenizer, text)
    }

    /// The embedding of a text: tokenized with special tokens, batched as one
    /// row on the device, run through the text encoder and projection, and
    /// unbatched. A text the tokenizer rejects is a `Tokenization` error, and
    /// the model is not run; a failure of the model or the device is a
    /// `Compute` error.
    pub fn text_features(&self, text: &str) -> (r: Result<Embedding, ClipError>)
        ensures
            encoding_of(self.spec_tokenizer_definition(), text@, true) is None <==> (r matches Err(
                e,
            ) && e is Tokenization),
            r matches Ok(e) ==> e.len == self.spec_embedding_len(),
            r matches Ok(e) ==> tensor_shape(e.features) == seq![self.spec_embedding_len()],
            r matches Err(e) ==> e is Tokenization || e is Compute,
    {
        proof {
            use_type_invariant(self);
        }
        let ids = tokenize(&self.tokenizer, text)?;
        let n = ids.len();
        let input_ids = self.ids_batch(ids)?;
        assert(tensor_shape(input_ids) =~= seq![1usize, n]);
        let features = compute_result(model_text_features(self, &input_ids))?;
        let flat = compute_result(drop_batch_axis(&features))?;
        as_embedding(flat, self.config.text_projection_dim)
    }
}

} // verus!
