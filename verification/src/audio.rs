pub mod audio_structures;
