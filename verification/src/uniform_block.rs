//! The uniform block: what one buffer write carries, and its bytes.

use vstd::prelude::*;
use crate::camera::{CameraFrame, Vector3};
use crate::parameters::{RenderParameters, ViewParameters};
use crate::layout::{Field, BLOCK_SIZE, field_at};
use crate::little_endian::{
    le_bytes, le_value, lemma_bytes_of_value, lemma_value_of_bytes, overwrite, read_word,
    write_word, zero_bytes,
};

verus! {

/// The camera frame, the view parameters and the fractal parameters of one
/// frame, as the shader reads them.
#[derive(Clone, Copy, Debug, PartialEq, Eq, Structural)]
pub struct MaterialUniformBlock {
    pub camera: CameraFrame,
    pub view: ViewParameters,
    pub render: RenderParameters,
}

/// The twelve bytes of a vector: x, then y, then z.
pub open spec fn vector_bytes(v: Vector3) -> Seq<u8> {
    le_bytes(v.x) + le_bytes(v.y) + le_bytes(v.z)
}

/// The vector that twelve bytes spell.
pub open spec fn vector_value(bytes: Seq<u8>) -> Vector3
    recommends
        bytes.len() == 12,
{
    Vector3 {
        x: le_value(bytes.subrange(0, 4)),
        y: le_value(bytes.subrange(4, 8)),
        z: le_value(bytes.subrange(8, 12)),
    }
}

/// The bytes of `bytes` that belong to `field`.
pub open spec fn field_range(bytes: Seq<u8>, field: Field) -> Seq<u8>
    recommends
        bytes.len() == BLOCK_SIZE,
{
    bytes.subrange(field.spec_offset() as int, field.spec_end() as int)
}

/// Writes a vector over the twelve bytes from `at` on.
pub fn write_vector(out: &mut Vec<u8>, at: usize, v: Vector3)
    requires
        at + 12 <= old(out).len(),
    ensures
        final(out)@ == overwrite(old(out)@, at as int, vector_bytes(v)),
{
    write_word(out, at, v.x);
    write_word(out, at + 4, v.y);
    write_word(out, at + 8, v.z);
    assert(out@ =~= overwrite(old(out)@, at as int, vector_bytes(v)));
}

/// Reads the vector that the twelve bytes from `at` on spell.
pub fn read_vector(bytes: &[u8], at: usize) -> (v: Vector3)
    requires
        at + 12 <= bytes.len(),
    ensures
        v == vector_value(bytes@.subrange(at as int, at + 12)),
{
    let x: u32 = read_word(bytes, at);
    let y: u32 = read_word(bytes, at + 4);
    let z: u32 = read_word(bytes, at + 8);
    proof {
        let part = bytes@.subrange(at as int, at + 12);
        assert(part.subrange(0, 4) =~= bytes@.subrange(at as int, at + 4));
        assert(part.subrange(4, 8) =~= bytes@.subrange(at + 4, at + 8));
        assert(part.subrange(8, 12) =~= bytes@.subrange(at + 8, at + 12));
    }
    Vector3 { x, y, z }
}

impl MaterialUniformBlock {
    /// The block of a camera frame and the two parameter sets.
    pub fn new(camera: CameraFrame, view: ViewParameters, render: RenderParameters) -> (block:
        MaterialUniformBlock)
        ensures
            block == (MaterialUniformBlock { camera, view, render }),
    {
        MaterialUniformBlock { camera, view, render }
    }

    /// The bytes of one field's value.
    pub open spec fn spec_field_bytes(self, field: Field) -> Seq<u8> {
        match field {
            Field::CameraPosition => vector_bytes(self.camera.position),
            Field::CameraForward => vector_bytes(self.camera.forward),
            Field::CameraHorizontal => vector_bytes(self.camera.right),
            Field::CameraVertical => vector_bytes(self.camera.up),
            Field::AspectRatio => le_bytes(self.view.aspect_ratio),
            Field::Power => le_bytes(self.render.power),
            Field::MaxIterations => le_bytes(self.render.max_iterations),
            Field::Bailout => le_bytes(self.render.bailout),
            Field::NumSteps => le_bytes(self.render.num_steps),
            Field::MinDist => le_bytes(self.render.min_dist),
            Field::MaxDist => le_bytes(self.render.max_dist),
            Field::Zoom => le_bytes(self.render.zoom),
        }
    }

    /// The byte at one position of the encoded block: the field's byte where
    /// a field stands, zero in the padding.
    pub open spec fn spec_byte(self, position: int) -> u8 {
        match field_at(position) {
            Some(field) => self.spec_field_bytes(field)[position - field.spec_offset()],
            None => 0u8,
        }
    }

    /// The encoded block: `BLOCK_SIZE` bytes, each field at its offset.
    pub open spec fn spec_encode(self) -> Seq<u8> {
        Seq::new(BLOCK_SIZE as nat, |position: int| self.spec_byte(position))
    }

    /// The block that `BLOCK_SIZE` bytes spell; padding is not looked at.
    /// Any other number of bytes spells none.
    pub open spec fn spec_decode(bytes: Seq<u8>) -> Option<MaterialUniformBlock> {
        if bytes.len() != BLOCK_SIZE {
            None
        } else {
            Some(
                MaterialUniformBlock {
                    camera: CameraFrame {
                        position: vector_value(field_range(bytes, Field::CameraPosition)),
                        forward: vector_value(field_range(bytes, Field::CameraForward)),
                        right: vector_value(field_range(bytes, Field::CameraHorizontal)),
                        up: vector_value(field_range(bytes, Field::CameraVertical)),
                    },
                    view: ViewParameters {
                        aspect_ratio: le_value(field_range(bytes, Field::AspectRatio)),
                    },
                    render: RenderParameters {
                        power: le_value(field_range(bytes, Field::Power)),
                        max_iterations: le_value(field_range(bytes, Field::MaxIterations)),
                        bailout: le_value(field_range(bytes, Field::Bailout)),
                        num_steps: le_value(field_range(bytes, Field::NumSteps)),
                        min_dist: le_value(field_range(bytes, Field::MinDist)),
                        max_dist: le_value(field_range(bytes, Field::MaxDist)),
                        zoom: le_value(field_range(bytes, Field::Zoom)),
                    },
                },
            )
        }
    }

    /// Encodes the block for the shader.
    pub fn encode(&self) -> (bytes: Vec<u8>)
        ensures
            bytes@ == self.spec_encode(),
            bytes@.len() == BLOCK_SIZE,
    {
        let mut out: Vec<u8> = zero_bytes(BLOCK_SIZE);
        write_vector(&mut out, Field::CameraPosition.offset(), self.camera.position);
        write_vector(&mut out, Field::CameraForward.offset(), self.camera.forward);
        write_vector(&mut out, Field::CameraHorizontal.offset(), self.camera.right);
        write_vector(&mut out, Field::CameraVertical.offset(), self.camera.up);
        write_word(&mut out, Field::AspectRatio.offset(), self.view.aspect_ratio);
        write_word(&mut out, Field::Power.offset(), self.render.power);
        write_word(&mut out, Field::MaxIterations.offset(), self.render.max_iterations);
        write_word(&mut out, Field::Bailout.offset(), self.render.bailout);
        write_word(&mut out, Field::NumSteps.offset(), self.render.num_steps);
        write_word(&mut out, Field::MinDist.offset(), self.render.min_dist);
        write_word(&mut out, Field::MaxDist.offset(), self.render.max_dist);
        write_word(&mut out, Field::Zoom.offset(), self.render.zoom);
        assert(out@ =~= self.spec_encode());
        out
    }

    /// Decodes a block from the bytes of a buffer.
    pub fn decode(bytes: &[u8]) -> (block: Option<MaterialUniformBlock>)
        ensures
            block == Self::spec_decode(bytes@),
            block.is_some() <==> bytes@.len() == BLOCK_SIZE,
    {
        if bytes.len() != BLOCK_SIZE {
            return None;
        }
        let position = read_vector(bytes, Field::CameraPosition.offset());
        let forward = read_vector(bytes, Field::CameraForward.offset());
        let right = read_vector(bytes, Field::CameraHorizontal.offset());
        let up = read_vector(bytes, Field::CameraVertical.offset());
        let aspect_ratio: u32 = read_word(bytes, Field::AspectRatio.offset());
        let power: u32 = read_word(bytes, Field::Power.offset());
        let max_iterations: u32 = read_word(bytes, Field::MaxIterations.offset());
        let bailout: u32 = read_word(bytes, Field::Bailout.offset());
        let num_steps: u32 = read_word(bytes, Field::NumSteps.offset());
        let min_dist: u32 = read_word(bytes, Field::MinDist.offset());
        let max_dist: u32 = read_word(bytes, Field::MaxDist.offset());
        let zoom: u32 = read_word(bytes, Field::Zoom.offset());
        Some(
            MaterialUniformBlock {
                camera: CameraFrame { position, forward, right, up },
                view: ViewParameters { aspect_ratio },
                render: RenderParameters {
                    power,
                    max_iterations,
                    bailout,
                    num_steps,
                    min_dist,
                    max_dist,
                    zoom,
                },
            },
        )
    }
}

/// Splitting a vector's bytes gives the vector again.
pub proof fn lemma_vector_round_trip(v: Vector3)
    ensures
        vector_bytes(v).len() == 12,
        vector_value(vector_bytes(v)) == v,
{
    let bytes = vector_bytes(v);
    assert(bytes.subrange(0, 4) =~= le_bytes(v.x));
    assert(bytes.subrange(4, 8) =~= le_bytes(v.y));
    assert(bytes.subrange(8, 12) =~= le_bytes(v.z));
    lemma_value_of_bytes(v.x);
    lemma_value_of_bytes(v.y);
    lemma_value_of_bytes(v.z);
}

/// In the encoded block every field's bytes stand at the field's offset: the
/// bytes from `spec_offset` to `spec_end` are the encoding of the field's
/// value, and the block is `BLOCK_SIZE` bytes long.
pub proof fn lemma_encode_places_fields(block: MaterialUniformBlock, field: Field)
    ensures
        block.spec_encode().len() == BLOCK_SIZE,
        field_range(block.spec_encode(), field) == block.spec_field_bytes(field),
{
    assert(field_range(block.spec_encode(), field) =~= block.spec_field_bytes(field));
}

/// In the encoded block every byte that belongs to no field is zero.
pub proof fn lemma_encode_zeroes_padding(block: MaterialUniformBlock, position: int)
    requires
        0 <= position < BLOCK_SIZE,
        field_at(position).is_none(),
    ensures
        block.spec_encode()[position] == 0,
{
}

/// Decoding an encoded block gives the block again.
pub proof fn lemma_decode_encode(block: MaterialUniformBlock)
    ensures
        MaterialUniformBlock::spec_decode(block.spec_encode()) == Some(block),
{
    let bytes = block.spec_encode();
    lemma_encode_places_fields(block, Field::CameraPosition);
    lemma_encode_places_fields(block, Field::CameraForward);
    lemma_encode_places_fields(block, Field::CameraHorizontal);
    lemma_encode_places_fields(block, Field::CameraVertical);
    lemma_encode_places_fields(block, Field::AspectRatio);
    lemma_encode_places_fields(block, Field::Power);
    lemma_encode_places_fields(block, Field::MaxIterations);
    lemma_encode_places_fields(block, Field::Bailout);
    lemma_encode_places_fields(block, Field::NumSteps);
    lemma_encode_places_fields(block, Field::MinDist);
    lemma_encode_places_fields(block, Field::MaxDist);
    lemma_encode_places_fields(block, Field::Zoom);
    lemma_vector_round_trip(block.camera.position);
    lemma_vector_round_trip(block.camera.forward);
    lemma_vector_round_trip(block.camera.right);
    lemma_vector_round_trip(block.camera.up);
    lemma_value_of_bytes(block.view.aspect_ratio);
    lemma_value_of_bytes(block.render.power);
    lemma_value_of_bytes(block.render.max_iterations);
    lemma_value_of_bytes(block.render.bailout);
    lemma_value_of_bytes(block.render.num_steps);
    lemma_value_of_bytes(block.render.min_dist);
    lemma_value_of_bytes(block.render.max_dist);
    lemma_value_of_bytes(block.render.zoom);
}

/// Two blocks with the same bytes are the same block.
pub proof fn lemma_encode_injective(a: MaterialUniformBlock, b: MaterialUniformBlock)
    requires
        a.spec_encode() == b.spec_encode(),
    ensures
        a == b,
{
    lemma_decode_encode(a);
    lemma_decode_encode(b);
}

/// Encoding what was decoded gives the bytes again in every field; only
/// padding can differ, which the encoding sets to zero.
pub proof fn lemma_encode_decode(bytes: Seq<u8>, field: Field)
    requires
        bytes.len() == BLOCK_SIZE,
    ensures
        MaterialUniformBlock::spec_decode(bytes) matches Some(block) && field_range(
            block.spec_encode(),
            field,
        ) == field_range(bytes, field),
{
    let block = MaterialUniformBlock::spec_decode(bytes).unwrap();
    lemma_encode_places_fields(block, field);
    let part = field_range(bytes, field);
    if field.spec_size() == 12 {
        lemma_bytes_of_value(part.subrange(0, 4));
        lemma_bytes_of_value(part.subrange(4, 8));
        lemma_bytes_of_value(part.subrange(8, 12));
        assert(part =~= part.subrange(0, 4) + part.subrange(4, 8) + part.subrange(8, 12));
    } else {
        lemma_bytes_of_value(part);
    }
}

} // verus!
