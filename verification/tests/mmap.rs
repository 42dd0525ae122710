use mapgate::mmap_type::{MmapBitSlice, MmapSlice, MmapType};
use mapgate::plain::PlainData;
use mapgate::region::Region;
use memmap2::MmapMut;
use rand::rngs::StdRng;
use rand::{Rng, SeedableRng};
use std::fmt::Debug;
use std::io::{Read, Seek, SeekFrom, Write};
use tempfile::{Builder, NamedTempFile};

fn create_temp_mmap_file(len: usize) -> NamedTempFile {
    let tempfile = Builder::new().prefix("test.").suffix(".mmap").tempfile().unwrap();
    tempfile.as_file().set_len(len as u64).unwrap();
    tempfile
}

/// Maps what the file holds: a fresh map of the file's length, filled with its bytes.
fn open_write_mmap(tempfile: &NamedTempFile) -> Region {
    let mut file = tempfile.as_file();
    let mut content = Vec::new();
    file.seek(SeekFrom::Start(0)).unwrap();
    file.read_to_end(&mut content).unwrap();
    let mut region = Region::new(MmapMut::map_anon(content.len()).unwrap());
    assert_eq!(region.len(), content.len());
    region.write_range(0, &content);
    region
}

/// Writes the bytes of the region back to the file it was mapped from.
fn close_mmap(tempfile: &NamedTempFile, region: &Region) {
    let mut file = tempfile.as_file();
    file.seek(SeekFrom::Start(0)).unwrap();
    file.write_all(&region.read_range(0, region.len())).unwrap();
    file.flush().unwrap();
}

fn check_open_zero_type<T: PlainData + PartialEq + Debug>(zero: T) {
    let bytes = std::mem::size_of::<T>();
    let tempfile = create_temp_mmap_file(bytes);
    let region = open_write_mmap(&tempfile);

    let mmap_type: MmapType<T> = MmapType::try_from(region).ok().unwrap();
    assert_eq!(mmap_type.get(), zero);
}

fn check_open_zero_slice<T: PlainData + PartialEq + Debug>(len: usize, zero: T) {
    let bytes = std::mem::size_of::<T>() * len;
    let tempfile = create_temp_mmap_file(bytes);
    let region = open_write_mmap(&tempfile);

    let mmap_slice: MmapSlice<T> = MmapSlice::try_with_header(region, 0).ok().unwrap();
    assert_eq!(mmap_slice.len(), len);
    assert!(mmap_slice.to_vec().iter().all(|i| i == &zero));
}

#[test]
fn test_open_zero() {
    check_open_zero_type::<u8>(0);
    check_open_zero_type::<usize>(0);
    assert_eq!(f32::from_bits(0), 0.0);
    check_open_zero_type::<u32>(0.0f32.to_bits());
    check_open_zero_slice::<u8>(0, 0);
    check_open_zero_slice::<u8>(1, 0);
    check_open_zero_slice::<u8>(123, 0);
    check_open_zero_slice::<usize>(0, 0);
    check_open_zero_slice::<usize>(1, 0);
    check_open_zero_slice::<usize>(123, 0);
    check_open_zero_slice::<u32>(0, 0.0f32.to_bits());
    check_open_zero_slice::<u32>(1, 0.0f32.to_bits());
    check_open_zero_slice::<u32>(123, 0.0f32.to_bits());
}

fn check_reopen_random<T, R>(len: usize, rng: R)
where
    T: PlainData + PartialEq + Debug,
    R: FnMut() -> T,
{
    let bytes = std::mem::size_of::<T>() * len;
    let tempfile = create_temp_mmap_file(bytes);

    let template: Vec<T> = std::iter::repeat_with(rng).take(len).collect();

    // Write random values from template into mmap
    {
        let region = open_write_mmap(&tempfile);
        let mut mmap_slice: MmapSlice<T> = MmapSlice::try_with_header(region, 0).ok().unwrap();
        assert_eq!(mmap_slice.len(), len);
        mmap_slice.copy_from_slice(&template);
        close_mmap(&tempfile, mmap_slice.region());
    }

    // Reopen and assert values from template
    {
        let region = open_write_mmap(&tempfile);
        let mmap_slice: MmapSlice<T> = MmapSlice::try_with_header(region, 0).ok().unwrap();
        assert_eq!(mmap_slice.to_vec(), template);
    }
}

#[test]
fn test_reopen_random() {
    let mut rng = StdRng::seed_from_u64(42);
    check_reopen_random::<u8, _>(0, || rng.gen());
    check_reopen_random::<u8, _>(1, || rng.gen());
    check_reopen_random::<u8, _>(123, || rng.gen());
    check_reopen_random::<usize, _>(0, || rng.gen());
    check_reopen_random::<usize, _>(1, || rng.gen());
    check_reopen_random::<usize, _>(123, || rng.gen());
    check_reopen_random::<u32, _>(0, || rng.gen::<f32>().to_bits());
    check_reopen_random::<u32, _>(1, || rng.gen::<f32>().to_bits());
    check_reopen_random::<u32, _>(123, || rng.gen::<f32>().to_bits());
}

fn check_bitslice_with_header(bits: usize, header_size: usize) {
    let bytes = (std::mem::size_of::<usize>() * bits / 8) + header_size;
    let tempfile = create_temp_mmap_file(bytes);

    // Fill bitslice
    {
        let mut rng = StdRng::seed_from_u64(42);
        let region = open_write_mmap(&tempfile);
        let mut mmap_bitslice = MmapBitSlice::try_from(region, header_size).ok().unwrap();
        (0..bits).for_each(|i| mmap_bitslice.set(i, rng.gen()));
        close_mmap(&tempfile, mmap_bitslice.region());
    }

    // Reopen and assert contents
    {
        let mut rng = StdRng::seed_from_u64(42);
        let region = open_write_mmap(&tempfile);
        let mmap_bitslice = MmapBitSlice::try_from(region, header_size).ok().unwrap();
        (0..bits).for_each(|i| assert_eq!(mmap_bitslice.get(i), rng.gen::<bool>()));
    }
}

#[test]
fn test_bitslice() {
    check_bitslice_with_header(512, 0);
    check_bitslice_with_header(512, 256);
}
