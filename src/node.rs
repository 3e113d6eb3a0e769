use vstd::prelude::*;

verus! {

/// Error of a filesystem operation that a character device cannot perform.
#[derive(Clone, Copy, Debug, PartialEq, Eq, Structural)]
pub enum FsError {
    /// The device has no metadata or size to change.
    NotSupported,
    /// A directory operation asked of a node that is not a directory.
    NotDir,
}

/// Error of a control request.
#[derive(Clone, Copy, Debug, PartialEq, Eq, Structural)]
pub enum IoctlError {
    /// The request's parameter lies outside the device's domain.
    NotValidParam,
}

/// The structural operations shared by every character device node.
///
/// None of them applies to a character device: each fails with a fixed
/// error, or succeeds without effect, so that a caller can tell a device
/// without metadata from a broken one.
pub trait DeviceNode {
    fn metadata(&self) -> (r: Result<(), FsError>)
        ensures
            r == Err::<(), FsError>(FsError::NotSupported),
    {
        Err(FsError::NotSupported)
    }

    fn sync_all(&self) -> (r: Result<(), FsError>)
        ensures
            r == Ok::<(), FsError>(()),
    {
        Ok(())
    }

    fn sync_data(&self) -> (r: Result<(), FsError>)
        ensures
            r == Ok::<(), FsError>(()),
    {
        Ok(())
    }

    fn resize(&self, _len: usize) -> (r: Result<(), FsError>)
        ensures
            r == Err::<(), FsError>(FsError::NotSupported),
    {
        Err(FsError::NotSupported)
    }

    fn create(&self, _name: &str, _mode: u32) -> (r: Result<(), FsError>)
        ensures
            r == Err::<(), FsError>(FsError::NotDir),
    {
        Err(FsError::NotDir)
    }

    fn unlink(&self, _name: &str) -> (r: Result<(), FsError>)
        ensures
            r == Err::<(), FsError>(FsError::NotDir),
    {
        Err(FsError::NotDir)
    }

    fn link(&self, _name: &str) -> (r: Result<(), FsError>)
        ensures
            r == Err::<(), FsError>(FsError::NotDir),
    {
        Err(FsError::NotDir)
    }

    fn move_(&self, _old_name: &str, _new_name: &str) -> (r: Result<(), FsError>)
        ensures
            r == Err::<(), FsError>(FsError::NotDir),
    {
        Err(FsError::NotDir)
    }

    fn find(&self, _name: &str) -> (r: Result<(), FsError>)
        ensures
            r == Err::<(), FsError>(FsError::NotDir),
    {
        Err(FsError::NotDir)
    }

    fn get_entry(&self, _id: usize) -> (r: Result<(), FsError>)
        ensures
            r == Err::<(), FsError>(FsError::NotDir),
    {
        Err(FsError::NotDir)
    }

    fn chmod(&self, _mode: u16) -> (r: Result<(), FsError>)
        ensures
            r == Ok::<(), FsError>(()),
    {
        Ok(())
    }
}

} // verus!
